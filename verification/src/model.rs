//! Plain-data description of the annotated type, the compiled shapes the
//! analyzer produces, and the diagnostic model.
//!
//! Texts (names, rendered attribute bodies, template literals) are carried as
//! `String`s; source locations are opaque `u64` span handles chosen by the
//! caller, which maps them back to real spans when reporting. Each type has a
//! spec-level mirror (`View`) so contracts can speak of it mathematically.

use vstd::prelude::*;

verus! {

// ---------------------------------------------------------------------------
// Attributes
// ---------------------------------------------------------------------------

/// One token of a list attribute's argument stream, as far as the template
/// parser needs to tell them apart.
#[derive(Debug)]
pub enum ArgToken {
    /// A string literal; carries its (unescaped) value.
    StrLit(String),
    /// A lone comma.
    Comma,
    /// Any other single token; carries its rendered text.
    Other(String),
}

pub enum ArgTokenSpec {
    StrLitS(Seq<char>),
    CommaS,
    OtherS(Seq<char>),
}

impl View for ArgToken {
    type V = ArgTokenSpec;

    open spec fn view(&self) -> ArgTokenSpec {
        match self {
            ArgToken::StrLit(s) => ArgTokenSpec::StrLitS(s@),
            ArgToken::Comma => ArgTokenSpec::CommaS,
            ArgToken::Other(s) => ArgTokenSpec::OtherS(s@),
        }
    }
}

impl DeepView for ArgToken {
    type V = ArgTokenSpec;

    open spec fn deep_view(&self) -> ArgTokenSpec {
        self.view()
    }
}

/// The syntactic form of an attribute.
#[derive(Debug)]
pub enum AttrForm {
    /// `#[name]`
    Bare,
    /// `#[name(tokens...)]`
    List(Vec<ArgToken>),
    /// `#[name = value]`
    NameValue,
}

pub enum AttrFormSpec {
    BareS,
    ListS(Seq<ArgTokenSpec>),
    NameValueS,
}

impl View for AttrForm {
    type V = AttrFormSpec;

    open spec fn view(&self) -> AttrFormSpec {
        match self {
            AttrForm::Bare => AttrFormSpec::BareS,
            AttrForm::List(toks) => AttrFormSpec::ListS(toks.deep_view()),
            AttrForm::NameValue => AttrFormSpec::NameValueS,
        }
    }
}

impl DeepView for AttrForm {
    type V = AttrFormSpec;

    open spec fn deep_view(&self) -> AttrFormSpec {
        self.view()
    }
}

/// One annotation on a type or variant.
#[derive(Debug)]
pub struct Attr {
    /// The attribute's path if it is a single identifier, otherwise its full
    /// rendered path text (which never matches the trigger word).
    pub name: String,
    pub form: AttrForm,
    /// The attribute's inner text as it would be re-emitted verbatim,
    /// e.g. `cfg (true)`.
    pub rendered: String,
    /// Opaque source-location handle.
    pub span: u64,
}

pub struct AttrSpec {
    pub name: Seq<char>,
    pub form: AttrFormSpec,
    pub rendered: Seq<char>,
    pub span: u64,
}

impl View for Attr {
    type V = AttrSpec;

    open spec fn view(&self) -> AttrSpec {
        AttrSpec { name: self.name@, form: self.form@, rendered: self.rendered@, span: self.span }
    }
}

impl DeepView for Attr {
    type V = AttrSpec;

    open spec fn deep_view(&self) -> AttrSpec {
        self.view()
    }
}

// ---------------------------------------------------------------------------
// The annotated type
// ---------------------------------------------------------------------------

/// The field list of a struct-like element, as far as generation needs it:
/// declared names for named fields, only the count for tuple fields.
#[derive(Debug)]
pub enum FieldList {
    Unit,
    Named(Vec<String>),
    Unnamed(u64),
}

pub enum FieldListSpec {
    UnitS,
    NamedS(Seq<Seq<char>>),
    UnnamedS(u64),
}

impl View for FieldList {
    type V = FieldListSpec;

    open spec fn view(&self) -> FieldListSpec {
        match self {
            FieldList::Unit => FieldListSpec::UnitS,
            FieldList::Named(ns) => FieldListSpec::NamedS(ns.deep_view()),
            FieldList::Unnamed(n) => FieldListSpec::UnnamedS(*n),
        }
    }
}

impl DeepView for FieldList {
    type V = FieldListSpec;

    open spec fn deep_view(&self) -> FieldListSpec {
        self.view()
    }
}

/// One variant of an annotated enum.
#[derive(Debug)]
pub struct VariantInput {
    pub attrs: Vec<Attr>,
    pub name: String,
    pub fields: FieldList,
    /// Opaque source-location handle for the whole variant.
    pub span: u64,
}

pub struct VariantInputSpec {
    pub attrs: Seq<AttrSpec>,
    pub name: Seq<char>,
    pub fields: FieldListSpec,
    pub span: u64,
}

impl View for VariantInput {
    type V = VariantInputSpec;

    open spec fn view(&self) -> VariantInputSpec {
        VariantInputSpec {
            attrs: self.attrs.deep_view(),
            name: self.name@,
            fields: self.fields@,
            span: self.span,
        }
    }
}

impl DeepView for VariantInput {
    type V = VariantInputSpec;

    open spec fn deep_view(&self) -> VariantInputSpec {
        self.view()
    }
}

/// The body of the annotated type.
#[derive(Debug)]
pub enum TypeBody {
    /// A struct; `has_never_field` records whether any field's type is the
    /// never type, which makes the struct uninhabited.
    Struct { has_never_field: bool },
    Enum(Vec<VariantInput>),
    Union,
}

pub enum TypeBodySpec {
    StructS { has_never_field: bool },
    EnumS(Seq<VariantInputSpec>),
    UnionS,
}

impl View for TypeBody {
    type V = TypeBodySpec;

    open spec fn view(&self) -> TypeBodySpec {
        match self {
            TypeBody::Struct { has_never_field } => TypeBodySpec::StructS {
                has_never_field: *has_never_field,
            },
            TypeBody::Enum(vs) => TypeBodySpec::EnumS(vs.deep_view()),
            TypeBody::Union => TypeBodySpec::UnionS,
        }
    }
}

impl DeepView for TypeBody {
    type V = TypeBodySpec;

    open spec fn deep_view(&self) -> TypeBodySpec {
        self.view()
    }
}

/// Kind of a generic parameter.
#[derive(Debug)]
pub enum GenKind {
    Lifetime,
    Type,
    Const,
}

impl View for GenKind {
    type V = GenKind;

    open spec fn view(&self) -> GenKind {
        *self
    }
}

impl DeepView for GenKind {
    type V = GenKind;

    open spec fn deep_view(&self) -> GenKind {
        *self
    }
}

impl Clone for GenKind {
    fn clone(&self) -> (r: Self)
        ensures
            r == *self,
    {
        match self {
            GenKind::Lifetime => GenKind::Lifetime,
            GenKind::Type => GenKind::Type,
            GenKind::Const => GenKind::Const,
        }
    }
}

impl Copy for GenKind {

}

/// One generic parameter of the annotated type.
#[derive(Debug)]
pub struct GenParam {
    pub kind: GenKind,
    /// Rendered inner texts of attributes on the parameter, e.g. `cfg (true)`.
    pub attrs: Vec<String>,
    /// `T`, `'a` or the const parameter's identifier.
    pub name: String,
    /// Rendered type of a const parameter, e.g. `usize`; empty otherwise.
    pub const_ty: String,
    /// Rendered texts of the parameter's bounds, e.g. `Display`.
    pub bounds: Vec<String>,
    /// Whether the parameter carries a default value, and its rendered text.
    pub has_default: bool,
    pub default_text: String,
}

pub struct GenParamSpec {
    pub kind: GenKind,
    pub attrs: Seq<Seq<char>>,
    pub name: Seq<char>,
    pub const_ty: Seq<char>,
    pub bounds: Seq<Seq<char>>,
    pub has_default: bool,
    pub default_text: Seq<char>,
}

impl View for GenParam {
    type V = GenParamSpec;

    open spec fn view(&self) -> GenParamSpec {
        GenParamSpec {
            kind: self.kind,
            attrs: self.attrs.deep_view(),
            name: self.name@,
            const_ty: self.const_ty@,
            bounds: self.bounds.deep_view(),
            has_default: self.has_default,
            default_text: self.default_text@,
        }
    }
}

impl DeepView for GenParam {
    type V = GenParamSpec;

    open spec fn deep_view(&self) -> GenParamSpec {
        self.view()
    }
}

/// The complete plain description of the annotated type.
#[derive(Debug)]
pub struct TypeInput {
    pub attrs: Vec<Attr>,
    pub name: String,
    /// Opaque source-location handle for the type's identifier.
    pub span: u64,
    pub generics: Vec<GenParam>,
    /// Rendered `where` clause, e.g. `where T : Debug`, if present.
    pub where_clause: Option<String>,
    pub body: TypeBody,
}

pub struct TypeInputSpec {
    pub attrs: Seq<AttrSpec>,
    pub name: Seq<char>,
    pub span: u64,
    pub generics: Seq<GenParamSpec>,
    pub where_clause: Option<Seq<char>>,
    pub body: TypeBodySpec,
}

impl View for TypeInput {
    type V = TypeInputSpec;

    open spec fn view(&self) -> TypeInputSpec {
        TypeInputSpec {
            attrs: self.attrs.deep_view(),
            name: self.name@,
            span: self.span,
            generics: self.generics.deep_view(),
            where_clause: match &self.where_clause {
                Some(w) => Some(w@),
                None => None,
            },
            body: self.body@,
        }
    }
}

// ---------------------------------------------------------------------------
// Compiled shapes
// ---------------------------------------------------------------------------

/// A field reference resolved from a placeholder, carrying the reference text
/// as written.
#[derive(Debug)]
pub enum FieldRef {
    /// The text parsed as a tuple index.
    Positional(String),
    /// The text is a field name.
    Named(String),
}

pub enum FieldRefSpec {
    PositionalS(Seq<char>),
    NamedS(Seq<char>),
}

impl View for FieldRef {
    type V = FieldRefSpec;

    open spec fn view(&self) -> FieldRefSpec {
        match self {
            FieldRef::Positional(s) => FieldRefSpec::PositionalS(s@),
            FieldRef::Named(s) => FieldRefSpec::NamedS(s@),
        }
    }
}

impl DeepView for FieldRef {
    type V = FieldRefSpec;

    open spec fn deep_view(&self) -> FieldRefSpec {
        self.view()
    }
}

/// A parsed template: the literal with reference texts removed from its
/// placeholders, plus the references in order of appearance.
#[derive(Debug)]
pub struct CompiledTemplate {
    pub literal: String,
    pub args: Vec<FieldRef>,
}

pub struct CompiledTemplateSpec {
    pub literal: Seq<char>,
    pub args: Seq<FieldRefSpec>,
}

impl View for CompiledTemplate {
    type V = CompiledTemplateSpec;

    open spec fn view(&self) -> CompiledTemplateSpec {
        CompiledTemplateSpec { literal: self.literal@, args: self.args.deep_view() }
    }
}

impl DeepView for CompiledTemplate {
    type V = CompiledTemplateSpec;

    open spec fn deep_view(&self) -> CompiledTemplateSpec {
        self.view()
    }
}

/// A validated enum variant that carries its own template.
#[derive(Debug)]
pub struct VariantDescriptor {
    /// Rendered inner texts of the variant's remaining (non-template)
    /// attributes, re-emitted verbatim on its generated match arm.
    pub other_attrs: Vec<String>,
    pub name: String,
    pub fields: FieldList,
    pub template: CompiledTemplate,
}

pub struct VariantDescriptorSpec {
    pub other_attrs: Seq<Seq<char>>,
    pub name: Seq<char>,
    pub fields: FieldListSpec,
    pub template: CompiledTemplateSpec,
}

impl View for VariantDescriptor {
    type V = VariantDescriptorSpec;

    open spec fn view(&self) -> VariantDescriptorSpec {
        VariantDescriptorSpec {
            other_attrs: self.other_attrs.deep_view(),
            name: self.name@,
            fields: self.fields@,
            template: self.template@,
        }
    }
}

impl DeepView for VariantDescriptor {
    type V = VariantDescriptorSpec;

    open spec fn deep_view(&self) -> VariantDescriptorSpec {
        self.view()
    }
}

/// The validated shape of the annotated type.
#[derive(Debug)]
pub enum TypeShape {
    /// A struct with its single template.
    SingleTemplate(CompiledTemplate),
    /// No value of the type can exist; rendering is unreachable.
    Uninhabited,
    /// An enum: an optional default template literal (used verbatim) and the
    /// variants that carry their own template.
    Tagged { default_literal: Option<String>, variants: Vec<VariantDescriptor> },
}

pub enum TypeShapeSpec {
    SingleTemplateS(CompiledTemplateSpec),
    UninhabitedS,
    TaggedS { default_literal: Option<Seq<char>>, variants: Seq<VariantDescriptorSpec> },
}

impl View for TypeShape {
    type V = TypeShapeSpec;

    open spec fn view(&self) -> TypeShapeSpec {
        match self {
            TypeShape::SingleTemplate(t) => TypeShapeSpec::SingleTemplateS(t@),
            TypeShape::Uninhabited => TypeShapeSpec::UninhabitedS,
            TypeShape::Tagged { default_literal, variants } => TypeShapeSpec::TaggedS {
                default_literal: match default_literal {
                    Some(l) => Some(l@),
                    None => None,
                },
                variants: variants.deep_view(),
            },
        }
    }
}

/// Everything the code generator consumes: the validated shape together with
/// the type's identity, remaining attributes and (default-stripped) generics.
#[derive(Debug)]
pub struct DerivePlan {
    /// Rendered inner texts of the type's remaining (non-template) attributes.
    pub other_attrs: Vec<String>,
    pub name: String,
    pub generics: Vec<GenParam>,
    pub where_clause: Option<String>,
    pub shape: TypeShape,
}

pub struct DerivePlanSpec {
    pub other_attrs: Seq<Seq<char>>,
    pub name: Seq<char>,
    pub generics: Seq<GenParamSpec>,
    pub where_clause: Option<Seq<char>>,
    pub shape: TypeShapeSpec,
}

impl View for DerivePlan {
    type V = DerivePlanSpec;

    open spec fn view(&self) -> DerivePlanSpec {
        DerivePlanSpec {
            other_attrs: self.other_attrs.deep_view(),
            name: self.name@,
            generics: self.generics.deep_view(),
            where_clause: match &self.where_clause {
                Some(w) => Some(w@),
                None => None,
            },
            shape: self.shape@,
        }
    }
}

// ---------------------------------------------------------------------------
// Diagnostics
// ---------------------------------------------------------------------------

/// The kind of one diagnostic; `message_text` gives its wording.
#[derive(Clone, Copy, PartialEq, Eq, Structural, Debug)]
pub enum DiagKind {
    /// The type is neither a struct nor an enum.
    UnsupportedShape,
    /// A struct carries no template attribute.
    MissingTemplate,
    /// An enum has neither a default template nor any variant template.
    MissingTemplateSet,
    /// Some, but not all, variants carry a template and there is no default.
    IncompleteVariantTemplates,
    /// The template attribute is not in list form.
    MalformedAttributeForm,
    /// A list-form template attribute with no tokens at all.
    EmptyTemplateLiteral,
    /// The argument stream ended where a string literal was expected.
    EmptyInput,
    /// The first argument token is not a string literal.
    ExpectedStringLiteral,
    /// A token follows the string literal with no separating comma.
    UnexpectedTrailingToken,
    /// Tokens follow the consumed arguments.
    UnexpectedToken,
}

/// One error: a source-location handle and a message kind.
#[derive(Clone, Copy, PartialEq, Eq, Structural, Debug)]
pub struct Diag {
    pub kind: DiagKind,
    pub span: u64,
}

/// The message wording of each diagnostic kind.
pub open spec fn spec_message_text(kind: DiagKind) -> Seq<char> {
    match kind {
        DiagKind::UnsupportedShape => "`#[derive(Error)]` only supports structs and enums"@,
        DiagKind::MissingTemplate => "missing `display` attribute for struct with `#[derive(Error)]`"@,
        DiagKind::MissingTemplateSet => "missing `display` attribute for enum with `#[derive(Error)]`\nadd a `display` attribute to at least the whole enum or to all of its variants"@,
        DiagKind::IncompleteVariantTemplates => "missing `display` attribute for variant in enum with `#[derive(Error)]`\nadd a `display` attribute either to the whole enum (as a default) or to the remaining variants"@,
        DiagKind::MalformedAttributeForm => "expected `display` to be a list attribute: `#[display(\"template...\")]`"@,
        DiagKind::EmptyTemplateLiteral => "unexpected empty `display` attribute, expected string literal"@,
        DiagKind::EmptyInput => "unexpected end of input, expected string literal"@,
        DiagKind::ExpectedStringLiteral => "expected string literal"@,
        DiagKind::UnexpectedTrailingToken => "unexpected token after string literal"@,
        DiagKind::UnexpectedToken => "unexpected token"@,
    }
}

/// Renders the message of one diagnostic kind.
pub fn message_text(kind: DiagKind) -> (r: String)
    ensures
        r@ == spec_message_text(kind),
{
    match kind {
        DiagKind::UnsupportedShape => "`#[derive(Error)]` only supports structs and enums".to_owned(),
        DiagKind::MissingTemplate => "missing `display` attribute for struct with `#[derive(Error)]`".to_owned(),
        DiagKind::MissingTemplateSet => "missing `display` attribute for enum with `#[derive(Error)]`\nadd a `display` attribute to at least the whole enum or to all of its variants".to_owned(),
        DiagKind::IncompleteVariantTemplates => "missing `display` attribute for variant in enum with `#[derive(Error)]`\nadd a `display` attribute either to the whole enum (as a default) or to the remaining variants".to_owned(),
        DiagKind::MalformedAttributeForm => "expected `display` to be a list attribute: `#[display(\"template...\")]`".to_owned(),
        DiagKind::EmptyTemplateLiteral => "unexpected empty `display` attribute, expected string literal".to_owned(),
        DiagKind::EmptyInput => "unexpected end of input, expected string literal".to_owned(),
        DiagKind::ExpectedStringLiteral => "expected string literal".to_owned(),
        DiagKind::UnexpectedTrailingToken => "unexpected token after string literal".to_owned(),
        DiagKind::UnexpectedToken => "unexpected token".to_owned(),
    }
}

/// One or more diagnostics reported together as a single compound failure.
/// The first entry is the primary one; combining appends.
#[derive(Debug)]
pub struct Diagnostics {
    pub entries: Vec<Diag>,
}

impl View for Diagnostics {
    type V = Seq<Diag>;

    open spec fn view(&self) -> Seq<Diag> {
        self.entries@
    }
}

impl Diagnostics {
    /// A compound failure never holds zero diagnostics.
    pub open spec fn wf(&self) -> bool {
        self@.len() > 0
    }

    /// A single diagnostic.
    pub fn single(kind: DiagKind, span: u64) -> (r: Self)
        ensures
            r@ =~= seq![Diag { kind, span }],
            r.wf(),
    {
        let mut entries: Vec<Diag> = Vec::new();
        entries.push(Diag { kind, span });
        Diagnostics { entries }
    }

    /// Appends another compound failure's diagnostics to this one.
    pub fn combine(&mut self, other: &Self)
        ensures
            final(self)@ == old(self)@ + other@,
            old(self).wf() ==> final(self).wf(),
    {
        let mut i: usize = 0;
        let n = other.entries.len();
        while i < n
            invariant
                n == other@.len(),
                0 <= i <= n,
                self@ == old(self)@ + other@.subrange(0, i as int),
            decreases n - i,
        {
            self.entries.push(other.entries[i]);
            proof {
                assert(old(self)@ + other@.subrange(0, i + 1 as int) =~= (old(self)@
                    + other@.subrange(0, i as int)).push(other@[i as int]));
            }
            i = i + 1;
        }
        proof {
            assert(other@.subrange(0, n as int) =~= other@);
        }
    }

    /// The primary (first) diagnostic's message, as a caller would surface it.
    pub fn primary_message(&self) -> (r: String)
        requires
            self.wf(),
        ensures
            r@ == spec_message_text(self@[0].kind),
    {
        message_text(self.entries[0].kind)
    }

    /// The primary (first) diagnostic's source-location handle.
    pub fn primary_span(&self) -> (r: u64)
        requires
            self.wf(),
        ensures
            r == self@[0].span,
    {
        self.entries[0].span
    }

    /// How many diagnostics the compound failure carries.
    pub fn len(&self) -> (r: usize)
        ensures
            r == self@.len(),
    {
        self.entries.len()
    }

    /// The `i`-th diagnostic.
    pub fn get(&self, i: usize) -> (r: Diag)
        requires
            i < self@.len(),
        ensures
            r == self@[i as int],
    {
        self.entries[i]
    }
}

// ---------------------------------------------------------------------------
// Folding many independent results into one.
// ---------------------------------------------------------------------------

/// The failures of a result list, every one, in order.
pub open spec fn err_items<T>(rs: Seq<Result<T, Diag>>) -> Seq<Diag>
    decreases rs.len(),
{
    if rs.len() == 0 {
        Seq::empty()
    } else {
        err_items(rs.drop_last()) + (match rs.last() {
            Err(d) => seq![d],
            Ok(_) => Seq::empty(),
        })
    }
}

/// The values of a result list, every one, in order.
pub open spec fn ok_items<T>(rs: Seq<Result<T, Diag>>) -> Seq<T>
    decreases rs.len(),
{
    if rs.len() == 0 {
        Seq::empty()
    } else {
        ok_items(rs.drop_last()) + (match rs.last() {
            Ok(v) => seq![v],
            Err(_) => Seq::empty(),
        })
    }
}

/// What folding a result list yields: all values when every result succeeded,
/// else every failure, in order, merged into one compound diagnostic. The
/// merge is plain concatenation, so merging sibling lists is associative and
/// no failure is ever dropped.
pub open spec fn spec_collect_combining<T>(rs: Seq<Result<T, Diag>>) -> Result<Seq<T>, Seq<Diag>> {
    if err_items(rs).len() == 0 {
        Ok(ok_items(rs))
    } else {
        Err(err_items(rs))
    }
}

/// Folds a list of independent results: collects every value, or every
/// failure — each item is judged in isolation, so failures after an
/// intervening success are still reported.
pub fn collect_combining<T>(results: Vec<Result<T, Diag>>) -> (r: Result<Vec<T>, Diagnostics>)
    ensures
        match r {
            Ok(vs) => spec_collect_combining(results@) == Ok::<Seq<T>, Seq<Diag>>(vs@),
            Err(e) => spec_collect_combining(results@) == Err::<Seq<T>, Seq<Diag>>(e@) && e.wf(),
        },
{
    let ghost orig = results@;
    let mut rest = results;
    let mut oks: Vec<T> = Vec::new();
    let mut errs: Vec<Diag> = Vec::new();
    let ghost mut done: int = 0;
    while rest.len() > 0
        invariant
            orig == results@,
            0 <= done <= orig.len(),
            rest@.len() == orig.len() - done,
            forall|k: int| 0 <= k < rest@.len() ==> #[trigger] rest@[k] == orig[done + k],
            oks@ == ok_items(orig.subrange(0, done)),
            errs@ == err_items(orig.subrange(0, done)),
        decreases rest@.len(),
    {
        let ghost prev_rest = rest@;
        let first = rest.remove(0);
        proof {
            assert(first == orig[done]);
            assert(orig.subrange(0, done + 1).drop_last() =~= orig.subrange(0, done));
            assert(orig.subrange(0, done + 1).last() == orig[done]);
        }
        match first {
            Ok(v) => {
                oks.push(v);
                proof {
                    assert(oks@ =~= ok_items(orig.subrange(0, done + 1)));
                    assert(errs@ =~= err_items(orig.subrange(0, done + 1)));
                }
            },
            Err(d) => {
                errs.push(d);
                proof {
                    assert(oks@ =~= ok_items(orig.subrange(0, done + 1)));
                    assert(errs@ =~= err_items(orig.subrange(0, done + 1)));
                }
            },
        }
        proof {
            done = done + 1;
            assert forall|k: int| 0 <= k < rest@.len() implies #[trigger] rest@[k] == orig[done
                + k] by {
                assert(rest@[k] == prev_rest[k + 1]);
            }
        }
    }
    proof {
        assert(orig.subrange(0, orig.len() as int) =~= orig);
    }
    if errs.len() > 0 {
        Err(Diagnostics { entries: errs })
    } else {
        Ok(oks)
    }
}

} // verus!
