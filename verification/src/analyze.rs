//! The shape analyzer: classifies the annotated type as a single-template
//! struct, a tagged enum (with an optional default template), or an
//! uninhabited type, and aggregates per-variant validation errors into one
//! compound diagnostic.

use vstd::prelude::*;
use crate::extract::{first_display_index, rendered_texts, rendered_texts_of, take_display_attr};
use crate::model::{Attr, AttrForm, AttrFormSpec, ArgTokenSpec, CompiledTemplateSpec, DerivePlan,
    DerivePlanSpec, Diag, DiagKind, Diagnostics, GenKind, GenParam, GenParamSpec, TypeBody,
    TypeBodySpec, TypeInput, TypeInputSpec, TypeShape, TypeShapeSpec, VariantDescriptor,
    VariantDescriptorSpec, VariantInput, VariantInputSpec};
use crate::template::{parse_template, spec_parse_template};

verus! {

// ---------------------------------------------------------------------------
// Parsing one template attribute, in either of its two roles.
// ---------------------------------------------------------------------------

/// What parsing a template attribute yields: it must be in list form, and an
/// empty argument stream is reported as an empty attribute at the attribute's
/// own location.
pub open spec fn spec_get_template(a: crate::model::AttrSpec) -> Result<
    CompiledTemplateSpec,
    Diag,
> {
    match a.form {
        AttrFormSpec::ListS(toks) => match spec_parse_template(toks, a.span) {
            Ok(t) => Ok(t),
            Err(d) => {
                if d.kind == DiagKind::EmptyInput {
                    Err(Diag { kind: DiagKind::EmptyTemplateLiteral, span: a.span })
                } else {
                    Err(d)
                }
            },
        },
        _ => Err(Diag { kind: DiagKind::MalformedAttributeForm, span: a.span }),
    }
}

/// Parses a template attribute into a compiled template.
pub fn get_template(a: Attr) -> (r: Result<crate::model::CompiledTemplate, Diag>)
    ensures
        match r {
            Ok(t) => spec_get_template(a@) == Ok::<CompiledTemplateSpec, Diag>(t@),
            Err(d) => spec_get_template(a@) == Err::<CompiledTemplateSpec, Diag>(d),
        },
{
    match &a.form {
        AttrForm::List(toks) => {
            match parse_template(toks, a.span) {
                Ok(t) => Ok(t),
                Err(d) => {
                    if d.kind == DiagKind::EmptyInput {
                        Err(Diag { kind: DiagKind::EmptyTemplateLiteral, span: a.span })
                    } else {
                        Err(d)
                    }
                },
            }
        },
        _ => Err(Diag { kind: DiagKind::MalformedAttributeForm, span: a.span }),
    }
}

/// What parsing an enum's default template attribute yields: list form whose
/// whole argument stream is one bare string literal; its text is used
/// verbatim, placeholders and all.
pub open spec fn spec_get_default(a: crate::model::AttrSpec) -> Result<Seq<char>, Diag> {
    match a.form {
        AttrFormSpec::ListS(toks) => {
            if toks.len() == 0 {
                Err(Diag { kind: DiagKind::EmptyTemplateLiteral, span: a.span })
            } else {
                match toks[0] {
                    ArgTokenSpec::StrLitS(lit) => {
                        if toks.len() > 1 {
                            Err(Diag { kind: DiagKind::UnexpectedToken, span: a.span })
                        } else {
                            Ok(lit)
                        }
                    },
                    _ => Err(Diag { kind: DiagKind::ExpectedStringLiteral, span: a.span }),
                }
            }
        },
        _ => Err(Diag { kind: DiagKind::MalformedAttributeForm, span: a.span }),
    }
}

/// Parses an enum's default template attribute into its bare literal.
pub fn get_default_literal(a: Attr) -> (r: Result<String, Diag>)
    ensures
        match r {
            Ok(lit) => spec_get_default(a@) == Ok::<Seq<char>, Diag>(lit@),
            Err(d) => spec_get_default(a@) == Err::<Seq<char>, Diag>(d),
        },
{
    match &a.form {
        AttrForm::List(toks) => {
            if toks.len() == 0 {
                return Err(Diag { kind: DiagKind::EmptyTemplateLiteral, span: a.span });
            }
            proof {
                assert(a@.form matches AttrFormSpec::ListS(ts) && ts[0] == toks@[0].deep_view());
            }
            match &toks[0] {
                crate::model::ArgToken::StrLit(s) => {
                    if toks.len() > 1 {
                        Err(Diag { kind: DiagKind::UnexpectedToken, span: a.span })
                    } else {
                        Ok(s.clone())
                    }
                },
                _ => Err(Diag { kind: DiagKind::ExpectedStringLiteral, span: a.span }),
            }
        },
        _ => Err(Diag { kind: DiagKind::MalformedAttributeForm, span: a.span }),
    }
}

// ---------------------------------------------------------------------------
// Per-variant processing.
// ---------------------------------------------------------------------------

/// What one variant contributes: a descriptor if it carries a valid template,
/// one diagnostic if its template is malformed, or its location if it carries
/// none.
pub enum VariantState {
    Valid(VariantDescriptor),
    Invalid(Diag),
    Absent(u64),
}

pub enum VariantStateSpec {
    ValidS(VariantDescriptorSpec),
    InvalidS(Diag),
    AbsentS(u64),
}

impl View for VariantState {
    type V = VariantStateSpec;

    open spec fn view(&self) -> VariantStateSpec {
        match self {
            VariantState::Valid(d) => VariantStateSpec::ValidS(d@),
            VariantState::Invalid(d) => VariantStateSpec::InvalidS(*d),
            VariantState::Absent(sp) => VariantStateSpec::AbsentS(*sp),
        }
    }
}

impl DeepView for VariantState {
    type V = VariantStateSpec;

    open spec fn deep_view(&self) -> VariantStateSpec {
        self.view()
    }
}

/// How one variant is classified.
pub open spec fn spec_variant_state(v: VariantInputSpec) -> VariantStateSpec {
    let di = first_display_index(v.attrs);
    if di == -1 {
        VariantStateSpec::AbsentS(v.span)
    } else {
        match spec_get_template(v.attrs[di]) {
            Ok(t) => VariantStateSpec::ValidS(
                VariantDescriptorSpec {
                    other_attrs: rendered_texts_of(v.attrs.remove(di)),
                    name: v.name,
                    fields: v.fields,
                    template: t,
                },
            ),
            Err(d) => VariantStateSpec::InvalidS(d),
        }
    }
}

/// Classifies one variant: detaches its template attribute, parses it, and
/// keeps the remaining attributes for verbatim re-emission.
pub fn variant_state(v: VariantInput) -> (r: VariantState)
    ensures
        r@ == spec_variant_state(v@),
{
    let VariantInput { mut attrs, name, fields, span } = v;
    let taken = take_display_attr(&mut attrs);
    match taken {
        None => VariantState::Absent(span),
        Some(a) => {
            match get_template(a) {
                Ok(t) => {
                    let other_attrs = rendered_texts(&attrs);
                    VariantState::Valid(
                        VariantDescriptor { other_attrs, name, fields, template: t },
                    )
                },
                Err(d) => VariantState::Invalid(d),
            }
        },
    }
}

// ---------------------------------------------------------------------------
// Folding the variant states.
// ---------------------------------------------------------------------------

/// The diagnostics of all malformed variant templates, in variant order.
pub open spec fn invalid_diags_of(vs: Seq<VariantInputSpec>) -> Seq<Diag>
    decreases vs.len(),
{
    if vs.len() == 0 {
        Seq::empty()
    } else {
        invalid_diags_of(vs.drop_last()) + (match spec_variant_state(vs.last()) {
            VariantStateSpec::InvalidS(d) => seq![d],
            _ => Seq::empty(),
        })
    }
}

/// The descriptors of all variants that carry a valid template, in order.
pub open spec fn valid_descriptors_of(vs: Seq<VariantInputSpec>) -> Seq<VariantDescriptorSpec>
    decreases vs.len(),
{
    if vs.len() == 0 {
        Seq::empty()
    } else {
        valid_descriptors_of(vs.drop_last()) + (match spec_variant_state(vs.last()) {
            VariantStateSpec::ValidS(d) => seq![d],
            _ => Seq::empty(),
        })
    }
}

/// The locations of all variants that carry no template, in order.
pub open spec fn absent_spans_of(vs: Seq<VariantInputSpec>) -> Seq<u64>
    decreases vs.len(),
{
    if vs.len() == 0 {
        Seq::empty()
    } else {
        absent_spans_of(vs.drop_last()) + (match spec_variant_state(vs.last()) {
            VariantStateSpec::AbsentS(sp) => seq![sp],
            _ => Seq::empty(),
        })
    }
}

// ---------------------------------------------------------------------------
// The analyzer.
// ---------------------------------------------------------------------------

/// One generic parameter with its default-value clause removed (type and
/// const parameters only; lifetimes pass through unchanged).
pub open spec fn spec_strip_param(g: GenParamSpec) -> GenParamSpec {
    match g.kind {
        GenKind::Lifetime => g,
        _ => GenParamSpec { has_default: false, default_text: Seq::empty(), ..g },
    }
}

/// The generic parameter list with every default-value clause removed.
pub open spec fn spec_strip_params(gens: Seq<GenParamSpec>) -> Seq<GenParamSpec> {
    gens.map_values(|g: GenParamSpec| spec_strip_param(g))
}

/// Removes a generic parameter's default-value clause in place.
pub fn strip_generic_default(p: &mut GenParam)
    ensures
        final(p)@ == spec_strip_param(old(p)@),
{
    match p.kind {
        GenKind::Lifetime => {},
        _ => {
            p.has_default = false;
            p.default_text = String::new();
        },
    }
}

/// Removes every generic parameter's default-value clause.
pub fn strip_generic_defaults(gens: Vec<GenParam>) -> (r: Vec<GenParam>)
    ensures
        r.deep_view() == spec_strip_params(gens.deep_view()),
{
    let ghost orig = gens.deep_view();
    let mut rest = gens;
    let mut out: Vec<GenParam> = Vec::new();
    while rest.len() > 0
        invariant
            out@.len() + rest@.len() == orig.len(),
            forall|k: int|
                0 <= k < rest@.len() ==> #[trigger] rest.deep_view()[k] == orig[out@.len() + k],
            forall|k: int|
                0 <= k < out@.len() ==> (#[trigger] out@[k])@ == spec_strip_param(orig[k]),
        decreases rest@.len(),
    {
        let ghost prev_out = out@;
        let ghost prev_rest = rest.deep_view();
        let mut p = rest.remove(0);
        proof {
            assert(prev_rest[0] == orig[prev_out.len() as int]);
            assert(p@ == prev_rest[0]);
        }
        strip_generic_default(&mut p);
        out.push(p);
        proof {
            assert forall|k: int| 0 <= k < rest@.len() implies #[trigger] rest.deep_view()[k]
                == orig[out@.len() + k] by {
                assert(rest.deep_view()[k] == prev_rest[k + 1]);
            }
            assert forall|k: int| 0 <= k < out@.len() implies (#[trigger] out@[k])@
                == spec_strip_param(orig[k]) by {
                if k < prev_out.len() {
                    assert(out@[k] == prev_out[k]);
                }
            }
        }
    }
    proof {
        assert forall|k: int| 0 <= k < orig.len() implies #[trigger] out.deep_view()[k]
            == spec_strip_params(orig)[k] by {
            assert(out.deep_view()[k] == out@[k]@);
        }
        assert(out.deep_view() =~= spec_strip_params(orig));
    }
    out
}

/// A plan with the given shape, sharing everything else.
pub open spec fn spec_plan_with(
    other: Seq<Seq<char>>,
    input: TypeInputSpec,
    gens: Seq<GenParamSpec>,
    shape: TypeShapeSpec,
) -> DerivePlanSpec {
    DerivePlanSpec {
        other_attrs: other,
        name: input.name,
        generics: gens,
        where_clause: input.where_clause,
        shape,
    }
}

/// The whole analysis: which plan, or which compound diagnostic, an annotated
/// type yields.
///
/// * A type that is neither a struct nor an enum is rejected outright.
/// * A struct with a never-typed field, or an enum with no variants, is
///   uninhabited and needs no template.
/// * Any other struct must carry one valid template.
/// * For an enum, every variant's own template is validated first and all
///   malformed ones are reported together. With a default template, variants
///   without their own are covered by it; without one, every variant must
///   carry its own: none at all is reported on the type, a partial set is
///   reported once per uncovered variant.
pub open spec fn spec_analyze(input: TypeInputSpec) -> Result<DerivePlanSpec, Seq<Diag>> {
    let di = first_display_index(input.attrs);
    let remaining = if di == -1 {
        input.attrs
    } else {
        input.attrs.remove(di)
    };
    let other = rendered_texts_of(remaining);
    let gens = spec_strip_params(input.generics);
    match input.body {
        TypeBodySpec::StructS { has_never_field } => {
            if has_never_field {
                Ok(spec_plan_with(other, input, gens, TypeShapeSpec::UninhabitedS))
            } else if di == -1 {
                Err(seq![Diag { kind: DiagKind::MissingTemplate, span: input.span }])
            } else {
                match spec_get_template(input.attrs[di]) {
                    Ok(t) => Ok(
                        spec_plan_with(other, input, gens, TypeShapeSpec::SingleTemplateS(t)),
                    ),
                    Err(d) => Err(seq![d]),
                }
            }
        },
        TypeBodySpec::EnumS(vs) => {
            if vs.len() == 0 {
                Ok(spec_plan_with(other, input, gens, TypeShapeSpec::UninhabitedS))
            } else {
                let bad = invalid_diags_of(vs);
                if bad.len() > 0 {
                    Err(bad)
                } else if di != -1 {
                    match spec_get_default(input.attrs[di]) {
                        Ok(lit) => Ok(
                            spec_plan_with(
                                other,
                                input,
                                gens,
                                TypeShapeSpec::TaggedS {
                                    default_literal: Some(lit),
                                    variants: valid_descriptors_of(vs),
                                },
                            ),
                        ),
                        Err(d) => Err(seq![d]),
                    }
                } else {
                    let valids = valid_descriptors_of(vs);
                    let absents = absent_spans_of(vs);
                    if valids.len() == 0 {
                        Err(seq![Diag { kind: DiagKind::MissingTemplateSet, span: input.span }])
                    } else if absents.len() > 0 {
                        Err(
                            absents.map_values(
                                |sp: u64| Diag {
                                    kind: DiagKind::IncompleteVariantTemplates,
                                    span: sp,
                                },
                            ),
                        )
                    } else {
                        Ok(
                            spec_plan_with(
                                other,
                                input,
                                gens,
                                TypeShapeSpec::TaggedS {
                                    default_literal: None,
                                    variants: valids,
                                },
                            ),
                        )
                    }
                }
            }
        },
        TypeBodySpec::UnionS => Err(
            seq![Diag { kind: DiagKind::UnsupportedShape, span: input.span }],
        ),
    }
}

/// Classifies the annotated type and validates its templates.
pub fn analyze(input: TypeInput) -> (r: Result<DerivePlan, Diagnostics>)
    ensures
        match r {
            Ok(p) => spec_analyze(input@) == Ok::<DerivePlanSpec, Seq<Diag>>(p@),
            Err(e) => spec_analyze(input@) == Err::<DerivePlanSpec, Seq<Diag>>(e@) && e.wf(),
        },
{
    let ghost ispec = input@;
    let TypeInput { mut attrs, name, span, generics, where_clause, body } = input;
    let taken = take_display_attr(&mut attrs);
    let other_attrs = rendered_texts(&attrs);
    let gens = strip_generic_defaults(generics);
    match body {
        TypeBody::Struct { has_never_field } => {
            if has_never_field {
                Ok(
                    DerivePlan {
                        other_attrs,
                        name,
                        generics: gens,
                        where_clause,
                        shape: TypeShape::Uninhabited,
                    },
                )
            } else {
                match taken {
                    None => Err(Diagnostics::single(DiagKind::MissingTemplate, span)),
                    Some(a) => {
                        match get_template(a) {
                            Ok(t) => Ok(
                                DerivePlan {
                                    other_attrs,
                                    name,
                                    generics: gens,
                                    where_clause,
                                    shape: TypeShape::SingleTemplate(t),
                                },
                            ),
                            Err(d) => Err(Diagnostics::single(d.kind, d.span)),
                        }
                    },
                }
            }
        },
        TypeBody::Enum(variants) => {
            if variants.len() == 0 {
                return Ok(
                    DerivePlan {
                        other_attrs,
                        name,
                        generics: gens,
                        where_clause,
                        shape: TypeShape::Uninhabited,
                    },
                );
            }
            let ghost vspec = ispec.body->EnumS_0;
            let (valids, absents, bad) = fold_variant_states(variants);
            proof {
                assert(vspec == ispec.body->EnumS_0);
            }
            if bad.entries.len() > 0 {
                return Err(bad);
            }
            match taken {
                Some(a) => {
                    match get_default_literal(a) {
                        Ok(lit) => Ok(
                            DerivePlan {
                                other_attrs,
                                name,
                                generics: gens,
                                where_clause,
                                shape: TypeShape::Tagged {
                                    default_literal: Some(lit),
                                    variants: valids,
                                },
                            },
                        ),
                        Err(d) => Err(Diagnostics::single(d.kind, d.span)),
                    }
                },
                None => {
                    if valids.len() == 0 {
                        return Err(Diagnostics::single(DiagKind::MissingTemplateSet, span));
                    }
                    if absents.len() > 0 {
                        let mut entries: Vec<Diag> = Vec::new();
                        let m = absents.len();
                        let mut i: usize = 0;
                        while i < m
                            invariant
                                m == absents@.len(),
                                0 <= i <= m,
                                entries@.len() == i,
                                forall|k: int|
                                    0 <= k < i ==> #[trigger] entries@[k] == (Diag {
                                        kind: DiagKind::IncompleteVariantTemplates,
                                        span: absents@[k],
                                    }),
                            decreases m - i,
                        {
                            entries.push(
                                Diag {
                                    kind: DiagKind::IncompleteVariantTemplates,
                                    span: absents[i],
                                },
                            );
                            i = i + 1;
                        }
                        let e = Diagnostics { entries };
                        proof {
                            assert(e@ =~= absent_spans_of(vspec).map_values(
                                |sp: u64| Diag {
                                    kind: DiagKind::IncompleteVariantTemplates,
                                    span: sp,
                                },
                            ));
                        }
                        return Err(e);
                    }
                    Ok(
                        DerivePlan {
                            other_attrs,
                            name,
                            generics: gens,
                            where_clause,
                            shape: TypeShape::Tagged { default_literal: None, variants: valids },
                        },
                    )
                },
            }
        },
        TypeBody::Union => Err(Diagnostics::single(DiagKind::UnsupportedShape, span)),
    }
}

/// Classifies every variant and splits the outcomes: templated descriptors,
/// locations of untemplated variants, and the diagnostics of all malformed
/// ones, each list in variant order.
fn fold_variant_states(variants: Vec<VariantInput>) -> (r: (
    Vec<VariantDescriptor>,
    Vec<u64>,
    Diagnostics,
))
    ensures
        r.0.deep_view() == valid_descriptors_of(variants.deep_view()),
        r.1@ == absent_spans_of(variants.deep_view()),
        r.2@ == invalid_diags_of(variants.deep_view()),
{
    let ghost orig = variants.deep_view();
    let mut rest = variants;
    let mut valids: Vec<VariantDescriptor> = Vec::new();
    let mut absents: Vec<u64> = Vec::new();
    let mut bad: Vec<Diag> = Vec::new();
    let ghost mut done: int = 0;
    while rest.len() > 0
        invariant
            0 <= done <= orig.len(),
            rest@.len() == orig.len() - done,
            forall|k: int| 0 <= k < rest@.len() ==> #[trigger] rest.deep_view()[k] == orig[done + k],
            valids.deep_view() == valid_descriptors_of(orig.subrange(0, done)),
            absents@ == absent_spans_of(orig.subrange(0, done)),
            bad@ == invalid_diags_of(orig.subrange(0, done)),
        decreases rest@.len(),
    {
        let ghost prev_rest = rest.deep_view();
        let ghost prev_valids = valids.deep_view();
        let v = rest.remove(0);
        proof {
            assert(prev_rest[0] == orig[done]);
            assert(v.deep_view() == prev_rest[0]);
        }
        let st = variant_state(v);
        proof {
            assert(orig.subrange(0, done + 1).drop_last() =~= orig.subrange(0, done));
            assert(orig.subrange(0, done + 1).last() == orig[done]);
        }
        match st {
            VariantState::Valid(d) => {
                valids.push(d);
                proof {
                    assert(valids.deep_view() =~= prev_valids.push(d@));
                    assert(valids.deep_view() =~= valid_descriptors_of(
                        orig.subrange(0, done + 1),
                    ));
                    assert(absents@ =~= absent_spans_of(orig.subrange(0, done + 1)));
                    assert(bad@ =~= invalid_diags_of(orig.subrange(0, done + 1)));
                }
            },
            VariantState::Absent(sp) => {
                absents.push(sp);
                proof {
                    assert(valids.deep_view() =~= valid_descriptors_of(
                        orig.subrange(0, done + 1),
                    ));
                    assert(absents@ =~= absent_spans_of(orig.subrange(0, done + 1)));
                    assert(bad@ =~= invalid_diags_of(orig.subrange(0, done + 1)));
                }
            },
            VariantState::Invalid(d) => {
                bad.push(d);
                proof {
                    assert(valids.deep_view() =~= valid_descriptors_of(
                        orig.subrange(0, done + 1),
                    ));
                    assert(absents@ =~= absent_spans_of(orig.subrange(0, done + 1)));
                    assert(bad@ =~= invalid_diags_of(orig.subrange(0, done + 1)));
                }
            },
        }
        proof {
            done = done + 1;
            assert forall|k: int| 0 <= k < rest@.len() implies #[trigger] rest.deep_view()[k]
                == orig[done + k] by {
                assert(rest.deep_view()[k] == prev_rest[k + 1]);
            }
        }
    }
    proof {
        assert(orig.subrange(0, orig.len() as int) =~= orig);
    }
    (valids, absents, Diagnostics { entries: bad })
}

} // verus!
