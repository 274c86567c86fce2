//! The library's general guarantees, stated and proved once over the spec
//! functions that the executable functions' contracts use.

use vstd::prelude::*;
use crate::analyze::{absent_spans_of, invalid_diags_of, spec_analyze, spec_get_default,
    spec_variant_state, valid_descriptors_of, VariantStateSpec};
use crate::extract::first_display_index;
use crate::model::{Diag, DiagKind, TypeBodySpec, TypeInputSpec, TypeShapeSpec,
    VariantDescriptorSpec, VariantInputSpec};
use crate::template::{placeholder_count, scan_refs, spec_compiled, lemma_scan_step,
    classify_spec};

verus! {

// ---------------------------------------------------------------------------
// Compiled templates.
// ---------------------------------------------------------------------------

/// A compiled template resolves exactly one field reference per placeholder
/// occurrence of the original literal, and the references keep the
/// placeholders' left-to-right order: the `i`-th argument resolves the `i`-th
/// placeholder's reference text.
pub proof fn lemma_refs_match_placeholders(lit: Seq<char>)
    ensures
        spec_compiled(lit).args.len() == placeholder_count(lit),
        forall|i: int|
            0 <= i < spec_compiled(lit).args.len() ==> #[trigger] spec_compiled(lit).args[i]
                == classify_spec(scan_refs(lit)[i]),
{
    lemma_scan_count(lit);
}

proof fn lemma_scan_count(lit: Seq<char>)
    ensures
        scan_refs(lit).len() == placeholder_count(lit),
    decreases lit.len(),
{
    lemma_scan_step(lit);
    let i = crate::template::first_match_from(lit, 0);
    if i != -1 {
        lemma_scan_count(crate::template::after_removal(lit, i));
    }
}

/// The scan really reaches a fixpoint: the stripped literal holds no further
/// placeholder, so rescanning it would change nothing.
pub proof fn lemma_scan_literal_fixpoint(lit: Seq<char>)
    ensures
        crate::template::first_match_from(crate::template::scan_literal(lit), 0) == -1,
        crate::template::scan_literal(crate::template::scan_literal(lit))
            == crate::template::scan_literal(lit),
    decreases lit.len(),
{
    lemma_scan_step(lit);
    let i = crate::template::first_match_from(lit, 0);
    if i != -1 {
        lemma_scan_literal_fixpoint(crate::template::after_removal(lit, i));
    }
}

// ---------------------------------------------------------------------------
// Folding helpers over an enum's variants.
// ---------------------------------------------------------------------------

/// When every variant lacks a template, the fold finds nothing malformed,
/// no descriptors, and one uncovered location per variant.
proof fn lemma_fold_all_absent(vs: Seq<VariantInputSpec>)
    requires
        forall|k: int|
            0 <= k < vs.len() ==> #[trigger] spec_variant_state(vs[k]) is AbsentS,
    ensures
        invalid_diags_of(vs) == Seq::<Diag>::empty(),
        valid_descriptors_of(vs) == Seq::<VariantDescriptorSpec>::empty(),
        absent_spans_of(vs).len() == vs.len(),
    decreases vs.len(),
{
    if vs.len() > 0 {
        assert(spec_variant_state(vs.last()) is AbsentS);
        lemma_fold_all_absent(vs.drop_last());
        assert(invalid_diags_of(vs) =~= Seq::<Diag>::empty());
        assert(valid_descriptors_of(vs) =~= Seq::<VariantDescriptorSpec>::empty());
    }
}

/// When exactly one variant carries a (valid) template and the rest lack one,
/// the fold keeps exactly that descriptor.
proof fn lemma_fold_single_valid(vs: Seq<VariantInputSpec>, k0: int, d: VariantDescriptorSpec)
    requires
        0 <= k0 < vs.len(),
        spec_variant_state(vs[k0]) == VariantStateSpec::ValidS(d),
        forall|k: int|
            0 <= k < vs.len() && k != k0 ==> #[trigger] spec_variant_state(vs[k]) is AbsentS,
    ensures
        invalid_diags_of(vs) == Seq::<Diag>::empty(),
        valid_descriptors_of(vs) == seq![d],
        absent_spans_of(vs).len() == vs.len() - 1,
    decreases vs.len(),
{
    if k0 == vs.len() - 1 {
        lemma_fold_all_absent(vs.drop_last());
        assert(invalid_diags_of(vs) =~= Seq::<Diag>::empty());
        assert(valid_descriptors_of(vs) =~= seq![d]);
    } else {
        assert(spec_variant_state(vs.last()) is AbsentS);
        lemma_fold_single_valid(vs.drop_last(), k0, d);
        assert(invalid_diags_of(vs) =~= Seq::<Diag>::empty());
        assert(valid_descriptors_of(vs) =~= seq![d]);
    }
}

/// When exactly one variant lacks a template and the rest carry valid ones,
/// the fold records exactly that variant's location.
proof fn lemma_fold_single_absent(vs: Seq<VariantInputSpec>, k0: int, sp: u64)
    requires
        0 <= k0 < vs.len(),
        spec_variant_state(vs[k0]) == VariantStateSpec::AbsentS(sp),
        forall|k: int|
            0 <= k < vs.len() && k != k0 ==> #[trigger] spec_variant_state(vs[k]) is ValidS,
    ensures
        invalid_diags_of(vs) == Seq::<Diag>::empty(),
        absent_spans_of(vs) == seq![sp],
        valid_descriptors_of(vs).len() == vs.len() - 1,
    decreases vs.len(),
{
    if k0 == vs.len() - 1 {
        lemma_fold_all_valid(vs.drop_last());
        assert(invalid_diags_of(vs) =~= Seq::<Diag>::empty());
        assert(absent_spans_of(vs) =~= seq![sp]);
    } else {
        assert(spec_variant_state(vs.last()) is ValidS);
        lemma_fold_single_absent(vs.drop_last(), k0, sp);
        assert(invalid_diags_of(vs) =~= Seq::<Diag>::empty());
        assert(absent_spans_of(vs) =~= seq![sp]);
    }
}

/// When every variant carries a valid template, the fold finds nothing
/// malformed, no uncovered location, and one descriptor per variant.
proof fn lemma_fold_all_valid(vs: Seq<VariantInputSpec>)
    requires
        forall|k: int|
            0 <= k < vs.len() ==> #[trigger] spec_variant_state(vs[k]) is ValidS,
    ensures
        invalid_diags_of(vs) == Seq::<Diag>::empty(),
        absent_spans_of(vs) == Seq::<u64>::empty(),
        valid_descriptors_of(vs).len() == vs.len(),
    decreases vs.len(),
{
    if vs.len() > 0 {
        assert(spec_variant_state(vs.last()) is ValidS);
        lemma_fold_all_valid(vs.drop_last());
        assert(invalid_diags_of(vs) =~= Seq::<Diag>::empty());
        assert(absent_spans_of(vs) =~= Seq::<u64>::empty());
    }
}

// ---------------------------------------------------------------------------
// Which template a value of a tagged type renders with.
// ---------------------------------------------------------------------------

/// The template literal the generated dispatch uses for a variant of the
/// given name: the variant's own if one of the kept descriptors carries it,
/// otherwise the default.
pub open spec fn tagged_template_for(
    default_literal: Option<Seq<char>>,
    variants: Seq<VariantDescriptorSpec>,
    vname: Seq<char>,
) -> Option<Seq<char>> {
    if exists|k: int| 0 <= k < variants.len() && #[trigger] variants[k].name == vname {
        let k = choose|k: int| 0 <= k < variants.len() && #[trigger] variants[k].name == vname;
        Some(variants[k].template.literal)
    } else {
        default_literal
    }
}

/// A tagged union with only a type-level default template renders that
/// literal's text for every variant, whatever the variant's name and fields:
/// the analysis keeps no per-variant descriptor, so every value falls to the
/// default dispatch arm.
pub proof fn lemma_default_only_renders_default(input: TypeInputSpec, lit: Seq<char>)
    requires
        input.body matches TypeBodySpec::EnumS(vs) && vs.len() > 0 && forall|k: int|
            0 <= k < vs.len() ==> first_display_index(#[trigger] vs[k].attrs) == -1,
        first_display_index(input.attrs) != -1,
        spec_get_default(input.attrs[first_display_index(input.attrs)]) == Ok::<Seq<char>, Diag>(
            lit,
        ),
    ensures
        spec_analyze(input) matches Ok(plan) && plan.shape matches TypeShapeSpec::TaggedS {
            default_literal,
            variants,
        } && default_literal == Some(lit) && variants.len() == 0 && forall|vname: Seq<char>|
            tagged_template_for(Some(lit), variants, vname) == Some(lit),
        spec_analyze(input) matches Ok(plan) && crate::codegen::body_text(plan.shape)
            == "match & self { "@ + "_ => "@ + crate::codegen::write_default(lit) + " }"@,
{
    let vs = input.body->EnumS_0;
    assert forall|k: int| 0 <= k < vs.len() implies #[trigger] spec_variant_state(
        vs[k],
    ) is AbsentS by {
        assert(first_display_index(vs[k].attrs) == -1);
    }
    lemma_fold_all_absent(vs);
}

/// A tagged union with a default plus one variant override renders the
/// override's literal for that variant's name and the default's literal for
/// every other name.
pub proof fn lemma_override_beats_default(
    input: TypeInputSpec,
    lit: Seq<char>,
    k0: int,
    d: VariantDescriptorSpec,
)
    requires
        input.body matches TypeBodySpec::EnumS(vs) && 0 <= k0 < vs.len()
            && spec_variant_state(vs[k0]) == VariantStateSpec::ValidS(d) && forall|k: int|
            0 <= k < vs.len() && k != k0 ==> #[trigger] spec_variant_state(vs[k]) is AbsentS,
        first_display_index(input.attrs) != -1,
        spec_get_default(input.attrs[first_display_index(input.attrs)]) == Ok::<Seq<char>, Diag>(
            lit,
        ),
    ensures
        spec_analyze(input) matches Ok(plan) && plan.shape matches TypeShapeSpec::TaggedS {
            default_literal,
            variants,
        } && default_literal == Some(lit) && variants == seq![d] && forall|vname: Seq<char>|
            tagged_template_for(Some(lit), seq![d], vname) == (if vname == d.name {
                Some(d.template.literal)
            } else {
                Some(lit)
            }),
{
    let vs = input.body->EnumS_0;
    lemma_fold_single_valid(vs, k0, d);
    assert forall|vname: Seq<char>|
        tagged_template_for(Some(lit), seq![d], vname) == (if vname == d.name {
            Some(d.template.literal)
        } else {
            Some(lit)
        }) by {
        let variants = seq![d];
        if vname == d.name {
            assert(variants[0].name == vname);
        }
    }
}

// ---------------------------------------------------------------------------
// The analyzer's error guarantees.
// ---------------------------------------------------------------------------

/// A tagged union with no default template, where exactly one variant lacks
/// its own template and every other variant's template is valid, fails with
/// one combined diagnostic whose span set has exactly one entry: the
/// uncovered variant's location.
pub proof fn lemma_one_uncovered_variant(input: TypeInputSpec, k0: int, sp: u64)
    requires
        input.body matches TypeBodySpec::EnumS(vs) && 0 <= k0 < vs.len() && vs.len() >= 2
            && spec_variant_state(vs[k0]) == VariantStateSpec::AbsentS(sp) && forall|k: int|
            0 <= k < vs.len() && k != k0 ==> #[trigger] spec_variant_state(vs[k]) is ValidS,
        first_display_index(input.attrs) == -1,
    ensures
        spec_analyze(input) == Err::<crate::model::DerivePlanSpec, Seq<Diag>>(
            seq![Diag { kind: DiagKind::IncompleteVariantTemplates, span: sp }],
        ),
{
    let vs = input.body->EnumS_0;
    lemma_fold_single_absent(vs, k0, sp);
    assert(absent_spans_of(vs).map_values(
        |s: u64| Diag { kind: DiagKind::IncompleteVariantTemplates, span: s },
    ) =~= seq![Diag { kind: DiagKind::IncompleteVariantTemplates, span: sp }]);
}

/// A tagged union with zero variants succeeds as uninhabited, with or without
/// any template attribute present, and its render body is the
/// reachability-violation marker rather than an error.
pub proof fn lemma_empty_enum_is_uninhabited(input: TypeInputSpec)
    requires
        input.body matches TypeBodySpec::EnumS(vs) && vs.len() == 0,
    ensures
        spec_analyze(input) matches Ok(plan) && plan.shape == TypeShapeSpec::UninhabitedS,
        spec_analyze(input) matches Ok(plan) && crate::codegen::body_text(plan.shape)
            == "unreachable ! (\"attempted to format an empty type\")"@,
{
}

/// A struct (other than an uninhabited one) with no template attribute fails
/// with exactly one diagnostic, reporting the missing template at the type's
/// own location.
pub proof fn lemma_struct_missing_template(input: TypeInputSpec)
    requires
        input.body matches TypeBodySpec::StructS { has_never_field } && !has_never_field,
        first_display_index(input.attrs) == -1,
    ensures
        spec_analyze(input) == Err::<crate::model::DerivePlanSpec, Seq<Diag>>(
            seq![Diag { kind: DiagKind::MissingTemplate, span: input.span }],
        ),
{
}

} // verus!
