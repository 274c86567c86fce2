//! Derivation engine for template-driven `Display`/`Error` implementations.
//!
//! Given a plain description of an annotated type (struct or enum, its
//! attributes, generic parameters and variants), this crate
//!
//! * extracts the `display` template attribute from the annotation list,
//! * parses each template literal's `{ref[:formatspec]}` placeholders into an
//!   ordered list of field references,
//! * classifies the type (single-template struct, tagged enum with an optional
//!   default template, or uninhabited), aggregating per-variant validation
//!   errors into one combined diagnostic, and
//! * renders the token text of the generated `Display` and `Error`
//!   implementations.
//!
//! The host-specific work (turning real syntax trees into the plain
//! description and the rendered text back into tokens) lives outside this
//! crate; everything here is verified.

use vstd::prelude::*;

pub mod analyze;
pub mod codegen;
pub mod extract;
pub mod laws;
pub mod model;
pub mod template;
pub mod text;

verus! {

/// Runs the whole derivation: classifies and validates the annotated type,
/// then renders the generated implementations' token text.
pub fn derive_error_impls(input: model::TypeInput) -> (r: Result<String, model::Diagnostics>)
    ensures
        match r {
            Ok(out) => analyze::spec_analyze(input@) matches Ok(p) && out@ == codegen::rendered(p),
            Err(e) => analyze::spec_analyze(input@) matches Err(ds) && e@ == ds && e.wf(),
        },
{
    match analyze::analyze(input) {
        Ok(plan) => Ok(codegen::render_plan(&plan)),
        Err(e) => Err(e),
    }
}

} // verus!
