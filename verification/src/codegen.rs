//! The code generator: renders the two implementations — "render as text"
//! and the error marker — as token text, one token per space, exactly as the
//! host prints a token stream (parentheses and brackets hug their content,
//! braces pad it).

use vstd::prelude::*;
use vstd::string::*;
use crate::model::{CompiledTemplate, CompiledTemplateSpec, DerivePlan, DerivePlanSpec, FieldList,
    FieldListSpec, FieldRef, FieldRefSpec, GenKind, GenParam, GenParamSpec, TypeShape,
    TypeShapeSpec, VariantDescriptor, VariantDescriptorSpec};
use crate::text::{decimal_of, decimal_string, escape, lit_token};

verus! {

// ---------------------------------------------------------------------------
// Spec: the rendered text, piece by piece.
// ---------------------------------------------------------------------------

/// `# [a] # [b] ... ` — one re-emitted annotation per bracket group, each
/// followed by a space.
pub open spec fn attrs_prefix(attrs: Seq<Seq<char>>) -> Seq<char>
    decreases attrs.len(),
{
    if attrs.len() == 0 {
        Seq::empty()
    } else {
        attrs_prefix(attrs.drop_last()) + "# ["@ + attrs.last() + "] "@
    }
}

/// The reference text of a resolved field reference.
pub open spec fn ref_text(r: FieldRefSpec) -> Seq<char> {
    match r {
        FieldRefSpec::PositionalS(t) => t,
        FieldRefSpec::NamedS(t) => t,
    }
}

/// Struct dialect: each reference becomes a receiver-qualified accessor,
/// appended as `, & self . x`.
pub open spec fn struct_args(args: Seq<FieldRefSpec>) -> Seq<char>
    decreases args.len(),
{
    if args.len() == 0 {
        Seq::empty()
    } else {
        struct_args(args.drop_last()) + " , & self . "@ + ref_text(args.last())
    }
}

/// Variant dialect: each reference becomes a bound local name — a declared
/// field name, or `_fieldN` for a tuple index.
pub open spec fn variant_arg(r: FieldRefSpec) -> Seq<char> {
    match r {
        FieldRefSpec::PositionalS(t) => "_field"@ + t,
        FieldRefSpec::NamedS(t) => t,
    }
}

pub open spec fn variant_args(args: Seq<FieldRefSpec>) -> Seq<char>
    decreases args.len(),
{
    if args.len() == 0 {
        Seq::empty()
    } else {
        variant_args(args.drop_last()) + " , "@ + variant_arg(args.last())
    }
}

/// The render call for a struct's template. With no arguments the literal
/// keeps a trailing comma.
pub open spec fn write_struct(t: CompiledTemplateSpec) -> Seq<char> {
    if t.args.len() == 0 {
        ":: core :: write ! (f , "@ + lit_token(t.literal) + " ,)"@
    } else {
        ":: core :: write ! (f , "@ + lit_token(t.literal) + struct_args(t.args) + ")"@
    }
}

/// The render call for a variant's template.
pub open spec fn write_variant(t: CompiledTemplateSpec) -> Seq<char> {
    if t.args.len() == 0 {
        ":: core :: write ! (f , "@ + lit_token(t.literal) + " ,)"@
    } else {
        ":: core :: write ! (f , "@ + lit_token(t.literal) + variant_args(t.args) + ")"@
    }
}

/// The render call for the default template's literal, used verbatim.
pub open spec fn write_default(lit: Seq<char>) -> Seq<char> {
    ":: core :: write ! (f , "@ + lit_token(lit) + ")"@
}

/// The synthesized names of a tuple variant's fields: `_field0 , _field1 ...`
pub open spec fn tuple_idents(n: nat) -> Seq<char>
    decreases n,
{
    if n == 0 {
        Seq::empty()
    } else if n == 1 {
        "_field"@ + decimal_of(0)
    } else {
        tuple_idents((n - 1) as nat) + " , _field"@ + decimal_of((n - 1) as nat)
    }
}

/// Declared field names joined by commas.
pub open spec fn name_list(names: Seq<Seq<char>>) -> Seq<char>
    decreases names.len(),
{
    if names.len() == 0 {
        Seq::empty()
    } else if names.len() == 1 {
        names[0]
    } else {
        name_list(names.drop_last()) + " , "@ + names.last()
    }
}

/// The destructuring pattern a variant's fields contribute to its arm.
pub open spec fn fields_pat(f: FieldListSpec) -> Seq<char> {
    match f {
        FieldListSpec::UnitS => Seq::empty(),
        FieldListSpec::NamedS(ns) => {
            if ns.len() == 0 {
                " { }"@
            } else {
                " { "@ + name_list(ns) + " }"@
            }
        },
        FieldListSpec::UnnamedS(n) => {
            if n == 0 {
                " ()"@
            } else {
                " ("@ + tuple_idents(n as nat) + ")"@
            }
        },
    }
}

/// One dispatch arm: the variant's preserved annotations, its destructuring
/// pattern, and its render call.
pub open spec fn arm(v: VariantDescriptorSpec) -> Seq<char> {
    attrs_prefix(v.other_attrs) + "Self :: "@ + v.name + fields_pat(v.fields) + " => "@
        + write_variant(v.template)
}

/// The arms of all templated variants, joined by commas.
pub open spec fn arm_list(vs: Seq<VariantDescriptorSpec>) -> Seq<char>
    decreases vs.len(),
{
    if vs.len() == 0 {
        Seq::empty()
    } else if vs.len() == 1 {
        arm(vs[0])
    } else {
        arm_list(vs.drop_last()) + " , "@ + arm(vs.last())
    }
}

/// The body of the generated render method.
pub open spec fn body_text(shape: TypeShapeSpec) -> Seq<char> {
    match shape {
        TypeShapeSpec::SingleTemplateS(t) => write_struct(t),
        TypeShapeSpec::UninhabitedS => "unreachable ! (\"attempted to format an empty type\")"@,
        TypeShapeSpec::TaggedS { default_literal, variants } => {
            match default_literal {
                Some(d) => {
                    if variants.len() == 0 {
                        "match & self { "@ + "_ => "@ + write_default(d) + " }"@
                    } else {
                        "match & self { "@ + arm_list(variants) + " , "@ + "_ => "@
                            + write_default(d) + " }"@
                    }
                },
                None => "match & self { "@ + arm_list(variants) + " }"@,
            }
        },
    }
}

/// A parameter's bound list, `: A + B`, empty when it has no bounds.
pub open spec fn plus_list(bs: Seq<Seq<char>>) -> Seq<char>
    decreases bs.len(),
{
    if bs.len() == 0 {
        Seq::empty()
    } else if bs.len() == 1 {
        bs[0]
    } else {
        plus_list(bs.drop_last()) + " + "@ + bs.last()
    }
}

/// One generic parameter as the implementation header carries it; with
/// `debug`, a type parameter gains the added introspection bound.
pub open spec fn param_text(g: GenParamSpec, debug: bool) -> Seq<char> {
    match g.kind {
        GenKind::Lifetime => {
            if g.bounds.len() == 0 {
                attrs_prefix(g.attrs) + g.name
            } else {
                attrs_prefix(g.attrs) + g.name + " : "@ + plus_list(g.bounds)
            }
        },
        GenKind::Type => {
            if debug {
                if g.bounds.len() == 0 {
                    attrs_prefix(g.attrs) + g.name + " : :: core :: fmt :: Debug"@
                } else {
                    attrs_prefix(g.attrs) + g.name + " : "@ + plus_list(g.bounds)
                        + " + :: core :: fmt :: Debug"@
                }
            } else {
                if g.bounds.len() == 0 {
                    attrs_prefix(g.attrs) + g.name
                } else {
                    attrs_prefix(g.attrs) + g.name + " : "@ + plus_list(g.bounds)
                }
            }
        },
        GenKind::Const => attrs_prefix(g.attrs) + "const "@ + g.name + " : "@ + g.const_ty,
    }
}

/// The parameter list of an implementation header, ` < p , q >`, empty when
/// the type is not parameterized.
pub open spec fn params_list(gens: Seq<GenParamSpec>, debug: bool) -> Seq<char>
    decreases gens.len(),
{
    if gens.len() == 0 {
        Seq::empty()
    } else if gens.len() == 1 {
        param_text(gens[0], debug)
    } else {
        params_list(gens.drop_last(), debug) + " , "@ + param_text(gens.last(), debug)
    }
}

pub open spec fn params_part(gens: Seq<GenParamSpec>, debug: bool) -> Seq<char> {
    if gens.len() == 0 {
        Seq::empty()
    } else {
        " < "@ + params_list(gens, debug) + " >"@
    }
}

/// The parameter names as the type is referred to, ` < T , U >`.
pub open spec fn reduced_list(gens: Seq<GenParamSpec>) -> Seq<char>
    decreases gens.len(),
{
    if gens.len() == 0 {
        Seq::empty()
    } else if gens.len() == 1 {
        gens[0].name
    } else {
        reduced_list(gens.drop_last()) + " , "@ + gens.last().name
    }
}

pub open spec fn reduced_part(gens: Seq<GenParamSpec>) -> Seq<char> {
    if gens.len() == 0 {
        Seq::empty()
    } else {
        " < "@ + reduced_list(gens) + " >"@
    }
}

pub open spec fn where_part(wc: Option<Seq<char>>) -> Seq<char> {
    match wc {
        Some(w) => " "@ + w,
        None => Seq::empty(),
    }
}

/// The "render as text" implementation.
pub open spec fn display_impl(plan: DerivePlanSpec) -> Seq<char> {
    attrs_prefix(plan.other_attrs) + "# [allow (single_use_lifetimes)] impl"@ + params_part(
        plan.generics,
        false,
    ) + " :: core :: fmt :: Display for "@ + plan.name + reduced_part(plan.generics) + where_part(
        plan.where_clause,
    )
        + " { fn fmt (& self , f : & mut :: core :: fmt :: Formatter < '_ >) -> :: core :: fmt :: Result { "@
        + body_text(plan.shape) + " } }"@
}

/// The zero-method error-marker implementation, whose type parameters each
/// carry the added introspection bound.
pub open spec fn error_impl(plan: DerivePlanSpec) -> Seq<char> {
    attrs_prefix(plan.other_attrs) + "# [allow (single_use_lifetimes)] impl"@ + params_part(
        plan.generics,
        true,
    ) + " :: core :: error :: Error for "@ + plan.name + reduced_part(plan.generics) + where_part(
        plan.where_clause,
    ) + " { }"@
}

/// Everything the derivation emits.
pub open spec fn rendered(plan: DerivePlanSpec) -> Seq<char> {
    display_impl(plan) + " "@ + error_impl(plan)
}

// ---------------------------------------------------------------------------
// Exec: building the same text.
// ---------------------------------------------------------------------------

fn push_attrs_prefix(out: &mut String, attrs: &Vec<String>)
    ensures
        final(out)@ == old(out)@ + attrs_prefix(attrs.deep_view()),
{
    let n = attrs.len();
    let mut i: usize = 0;
    while i < n
        invariant
            n == attrs@.len(),
            0 <= i <= n,
            out@ == old(out)@ + attrs_prefix(attrs.deep_view().subrange(0, i as int)),
        decreases n - i,
    {
        out.append("# [");
        out.append(attrs[i].as_str());
        out.append("] ");
        proof {
            let pre = attrs.deep_view().subrange(0, i as int);
            let cur = attrs.deep_view().subrange(0, i + 1 as int);
            assert(cur.drop_last() =~= pre);
            assert(cur.last() == attrs@[i as int]@);
            assert(out@ =~= old(out)@ + attrs_prefix(cur));
        }
        i = i + 1;
    }
    proof {
        assert(attrs.deep_view().subrange(0, n as int) =~= attrs.deep_view());
    }
}

fn push_lit_token(out: &mut String, s: &str)
    ensures
        final(out)@ == old(out)@ + lit_token(s@),
{
    out.append("\"");
    let e = escape(s);
    out.append(e.as_str());
    out.append("\"");
    proof {
        reveal_strlit("\"");
        assert(out@ =~= old(out)@ + lit_token(s@));
    }
}

fn ref_text_str<'a>(r: &'a FieldRef) -> (t: &'a str)
    ensures
        t@ == ref_text(r@),
{
    match r {
        FieldRef::Positional(t) => t.as_str(),
        FieldRef::Named(t) => t.as_str(),
    }
}

fn push_struct_args(out: &mut String, args: &Vec<FieldRef>)
    ensures
        final(out)@ == old(out)@ + struct_args(args.deep_view()),
{
    let n = args.len();
    let mut i: usize = 0;
    while i < n
        invariant
            n == args@.len(),
            0 <= i <= n,
            out@ == old(out)@ + struct_args(args.deep_view().subrange(0, i as int)),
        decreases n - i,
    {
        out.append(" , & self . ");
        out.append(ref_text_str(&args[i]));
        proof {
            let pre = args.deep_view().subrange(0, i as int);
            let cur = args.deep_view().subrange(0, i + 1 as int);
            assert(cur.drop_last() =~= pre);
            assert(cur.last() == args@[i as int]@);
            assert(out@ =~= old(out)@ + struct_args(cur));
        }
        i = i + 1;
    }
    proof {
        assert(args.deep_view().subrange(0, n as int) =~= args.deep_view());
    }
}

fn push_variant_args(out: &mut String, args: &Vec<FieldRef>)
    ensures
        final(out)@ == old(out)@ + variant_args(args.deep_view()),
{
    let n = args.len();
    let mut i: usize = 0;
    while i < n
        invariant
            n == args@.len(),
            0 <= i <= n,
            out@ == old(out)@ + variant_args(args.deep_view().subrange(0, i as int)),
        decreases n - i,
    {
        out.append(" , ");
        match &args[i] {
            FieldRef::Positional(t) => {
                out.append("_field");
                out.append(t.as_str());
            },
            FieldRef::Named(t) => {
                out.append(t.as_str());
            },
        }
        proof {
            let pre = args.deep_view().subrange(0, i as int);
            let cur = args.deep_view().subrange(0, i + 1 as int);
            assert(cur.drop_last() =~= pre);
            assert(cur.last() == args@[i as int]@);
            assert(out@ =~= old(out)@ + variant_args(cur));
        }
        i = i + 1;
    }
    proof {
        assert(args.deep_view().subrange(0, n as int) =~= args.deep_view());
    }
}

fn push_write_struct(out: &mut String, t: &CompiledTemplate)
    ensures
        final(out)@ == old(out)@ + write_struct(t@),
{
    out.append(":: core :: write ! (f , ");
    push_lit_token(out, t.literal.as_str());
    if t.args.len() == 0 {
        out.append(" ,)");
    } else {
        push_struct_args(out, &t.args);
        out.append(")");
    }
    proof {
        assert(out@ =~= old(out)@ + write_struct(t@));
    }
}

fn push_write_variant(out: &mut String, t: &CompiledTemplate)
    ensures
        final(out)@ == old(out)@ + write_variant(t@),
{
    out.append(":: core :: write ! (f , ");
    push_lit_token(out, t.literal.as_str());
    if t.args.len() == 0 {
        out.append(" ,)");
    } else {
        push_variant_args(out, &t.args);
        out.append(")");
    }
    proof {
        assert(out@ =~= old(out)@ + write_variant(t@));
    }
}

fn push_write_default(out: &mut String, lit: &str)
    ensures
        final(out)@ == old(out)@ + write_default(lit@),
{
    out.append(":: core :: write ! (f , ");
    push_lit_token(out, lit);
    out.append(")");
    proof {
        assert(out@ =~= old(out)@ + write_default(lit@));
    }
}

fn push_tuple_idents(out: &mut String, n: u64)
    ensures
        final(out)@ == old(out)@ + tuple_idents(n as nat),
{
    let mut i: u64 = 0;
    while i < n
        invariant
            0 <= i <= n,
            out@ == old(out)@ + tuple_idents(i as nat),
        decreases n - i,
    {
        if i == 0 {
            out.append("_field");
        } else {
            out.append(" , _field");
        }
        let d = decimal_string(i);
        out.append(d.as_str());
        proof {
            assert(out@ =~= old(out)@ + tuple_idents((i + 1) as nat));
        }
        i = i + 1;
    }
}

fn push_name_list(out: &mut String, names: &Vec<String>)
    ensures
        final(out)@ == old(out)@ + name_list(names.deep_view()),
{
    let n = names.len();
    let mut i: usize = 0;
    while i < n
        invariant
            n == names@.len(),
            0 <= i <= n,
            out@ == old(out)@ + name_list(names.deep_view().subrange(0, i as int)),
        decreases n - i,
    {
        if i > 0 {
            out.append(" , ");
        }
        out.append(names[i].as_str());
        proof {
            let pre = names.deep_view().subrange(0, i as int);
            let cur = names.deep_view().subrange(0, i + 1 as int);
            assert(cur.drop_last() =~= pre);
            assert(cur.last() == names@[i as int]@);
            assert(out@ =~= old(out)@ + name_list(cur));
        }
        i = i + 1;
    }
    proof {
        assert(names.deep_view().subrange(0, n as int) =~= names.deep_view());
    }
}

fn push_fields_pat(out: &mut String, f: &FieldList)
    ensures
        final(out)@ == old(out)@ + fields_pat(f@),
{
    match f {
        FieldList::Unit => {
            proof {
                assert(out@ =~= old(out)@ + fields_pat(f@));
            }
        },
        FieldList::Named(ns) => {
            if ns.len() == 0 {
                out.append(" { }");
            } else {
                out.append(" { ");
                push_name_list(out, ns);
                out.append(" }");
            }
            proof {
                assert(out@ =~= old(out)@ + fields_pat(f@));
            }
        },
        FieldList::Unnamed(n) => {
            if *n == 0 {
                out.append(" ()");
            } else {
                out.append(" (");
                push_tuple_idents(out, *n);
                out.append(")");
            }
            proof {
                assert(out@ =~= old(out)@ + fields_pat(f@));
            }
        },
    }
}

fn push_arm(out: &mut String, v: &VariantDescriptor)
    ensures
        final(out)@ == old(out)@ + arm(v@),
{
    push_attrs_prefix(out, &v.other_attrs);
    out.append("Self :: ");
    out.append(v.name.as_str());
    push_fields_pat(out, &v.fields);
    out.append(" => ");
    push_write_variant(out, &v.template);
    proof {
        assert(out@ =~= old(out)@ + arm(v@));
    }
}

fn push_arm_list(out: &mut String, vs: &Vec<VariantDescriptor>)
    ensures
        final(out)@ == old(out)@ + arm_list(vs.deep_view()),
{
    let n = vs.len();
    let mut i: usize = 0;
    while i < n
        invariant
            n == vs@.len(),
            0 <= i <= n,
            out@ == old(out)@ + arm_list(vs.deep_view().subrange(0, i as int)),
        decreases n - i,
    {
        if i > 0 {
            out.append(" , ");
        }
        push_arm(out, &vs[i]);
        proof {
            let pre = vs.deep_view().subrange(0, i as int);
            let cur = vs.deep_view().subrange(0, i + 1 as int);
            assert(cur.drop_last() =~= pre);
            assert(cur.last() == vs@[i as int]@);
            assert(out@ =~= old(out)@ + arm_list(cur));
        }
        i = i + 1;
    }
    proof {
        assert(vs.deep_view().subrange(0, n as int) =~= vs.deep_view());
    }
}

fn push_body(out: &mut String, shape: &TypeShape)
    ensures
        final(out)@ == old(out)@ + body_text(shape@),
{
    match shape {
        TypeShape::SingleTemplate(t) => {
            push_write_struct(out, t);
        },
        TypeShape::Uninhabited => {
            out.append("unreachable ! (\"attempted to format an empty type\")");
        },
        TypeShape::Tagged { default_literal, variants } => {
            out.append("match & self { ");
            match default_literal {
                Some(d) => {
                    if variants.len() == 0 {
                        out.append("_ => ");
                        push_write_default(out, d.as_str());
                    } else {
                        push_arm_list(out, variants);
                        out.append(" , ");
                        out.append("_ => ");
                        push_write_default(out, d.as_str());
                    }
                },
                None => {
                    push_arm_list(out, variants);
                },
            }
            out.append(" }");
        },
    }
    proof {
        assert(out@ =~= old(out)@ + body_text(shape@));
    }
}

fn push_plus_list(out: &mut String, bs: &Vec<String>)
    ensures
        final(out)@ == old(out)@ + plus_list(bs.deep_view()),
{
    let n = bs.len();
    let mut i: usize = 0;
    while i < n
        invariant
            n == bs@.len(),
            0 <= i <= n,
            out@ == old(out)@ + plus_list(bs.deep_view().subrange(0, i as int)),
        decreases n - i,
    {
        if i > 0 {
            out.append(" + ");
        }
        out.append(bs[i].as_str());
        proof {
            let pre = bs.deep_view().subrange(0, i as int);
            let cur = bs.deep_view().subrange(0, i + 1 as int);
            assert(cur.drop_last() =~= pre);
            assert(cur.last() == bs@[i as int]@);
            assert(out@ =~= old(out)@ + plus_list(cur));
        }
        i = i + 1;
    }
    proof {
        assert(bs.deep_view().subrange(0, n as int) =~= bs.deep_view());
    }
}

fn push_param(out: &mut String, g: &GenParam, debug: bool)
    ensures
        final(out)@ == old(out)@ + param_text(g@, debug),
{
    push_attrs_prefix(out, &g.attrs);
    match g.kind {
        GenKind::Lifetime => {
            out.append(g.name.as_str());
            if g.bounds.len() > 0 {
                out.append(" : ");
                push_plus_list(out, &g.bounds);
            }
        },
        GenKind::Type => {
            out.append(g.name.as_str());
            if debug {
                if g.bounds.len() == 0 {
                    out.append(" : :: core :: fmt :: Debug");
                } else {
                    out.append(" : ");
                    push_plus_list(out, &g.bounds);
                    out.append(" + :: core :: fmt :: Debug");
                }
            } else {
                if g.bounds.len() > 0 {
                    out.append(" : ");
                    push_plus_list(out, &g.bounds);
                }
            }
        },
        GenKind::Const => {
            out.append("const ");
            out.append(g.name.as_str());
            out.append(" : ");
            out.append(g.const_ty.as_str());
        },
    }
    proof {
        assert(out@ =~= old(out)@ + param_text(g@, debug));
    }
}

fn push_params_part(out: &mut String, gens: &Vec<GenParam>, debug: bool)
    ensures
        final(out)@ == old(out)@ + params_part(gens.deep_view(), debug),
{
    let n = gens.len();
    if n == 0 {
        proof {
            assert(out@ =~= old(out)@ + params_part(gens.deep_view(), debug));
        }
        return ;
    }
    out.append(" < ");
    let mut i: usize = 0;
    while i < n
        invariant
            n == gens@.len(),
            n > 0,
            0 <= i <= n,
            out@ == old(out)@ + " < "@ + params_list(gens.deep_view().subrange(0, i as int), debug),
        decreases n - i,
    {
        if i > 0 {
            out.append(" , ");
        }
        push_param(out, &gens[i], debug);
        proof {
            let pre = gens.deep_view().subrange(0, i as int);
            let cur = gens.deep_view().subrange(0, i + 1 as int);
            assert(cur.drop_last() =~= pre);
            assert(cur.last() == gens@[i as int]@);
            assert(out@ =~= old(out)@ + " < "@ + params_list(cur, debug));
        }
        i = i + 1;
    }
    out.append(" >");
    proof {
        assert(gens.deep_view().subrange(0, n as int) =~= gens.deep_view());
        assert(out@ =~= old(out)@ + params_part(gens.deep_view(), debug));
    }
}

fn push_reduced_part(out: &mut String, gens: &Vec<GenParam>)
    ensures
        final(out)@ == old(out)@ + reduced_part(gens.deep_view()),
{
    let n = gens.len();
    if n == 0 {
        proof {
            assert(out@ =~= old(out)@ + reduced_part(gens.deep_view()));
        }
        return ;
    }
    out.append(" < ");
    let mut i: usize = 0;
    while i < n
        invariant
            n == gens@.len(),
            n > 0,
            0 <= i <= n,
            out@ == old(out)@ + " < "@ + reduced_list(gens.deep_view().subrange(0, i as int)),
        decreases n - i,
    {
        if i > 0 {
            out.append(" , ");
        }
        out.append(gens[i].name.as_str());
        proof {
            let pre = gens.deep_view().subrange(0, i as int);
            let cur = gens.deep_view().subrange(0, i + 1 as int);
            assert(cur.drop_last() =~= pre);
            assert(cur.last() == gens@[i as int]@);
            assert(out@ =~= old(out)@ + " < "@ + reduced_list(cur));
        }
        i = i + 1;
    }
    out.append(" >");
    proof {
        assert(gens.deep_view().subrange(0, n as int) =~= gens.deep_view());
        assert(out@ =~= old(out)@ + reduced_part(gens.deep_view()));
    }
}

fn push_where_part(out: &mut String, wc: &Option<String>)
    ensures
        final(out)@ == old(out)@ + where_part(
            match wc {
                Some(w) => Some(w@),
                None => None,
            },
        ),
{
    match wc {
        Some(w) => {
            out.append(" ");
            out.append(w.as_str());
            proof {
                assert(out@ =~= old(out)@ + " "@ + w@);
            }
        },
        None => {},
    }
}

/// Renders the complete generated token text for a validated plan.
pub fn render_plan(plan: &DerivePlan) -> (r: String)
    ensures
        r@ == rendered(plan@),
{
    let mut out = String::new();
    push_attrs_prefix(&mut out, &plan.other_attrs);
    out.append("# [allow (single_use_lifetimes)] impl");
    push_params_part(&mut out, &plan.generics, false);
    out.append(" :: core :: fmt :: Display for ");
    out.append(plan.name.as_str());
    push_reduced_part(&mut out, &plan.generics);
    push_where_part(&mut out, &plan.where_clause);
    out.append(
        " { fn fmt (& self , f : & mut :: core :: fmt :: Formatter < '_ >) -> :: core :: fmt :: Result { ",
    );
    push_body(&mut out, &plan.shape);
    out.append(" } }");
    proof {
        assert(out@ =~= display_impl(plan@));
    }
    out.append(" ");
    push_attrs_prefix(&mut out, &plan.other_attrs);
    out.append("# [allow (single_use_lifetimes)] impl");
    push_params_part(&mut out, &plan.generics, true);
    out.append(" :: core :: error :: Error for ");
    out.append(plan.name.as_str());
    push_reduced_part(&mut out, &plan.generics);
    push_where_part(&mut out, &plan.where_clause);
    out.append(" { }");
    proof {
        assert(out@ =~= rendered(plan@));
    }
    out
}

} // verus!
