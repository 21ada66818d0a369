//! Build-time diagnostics.
//!
//! A diagnostic is the generator's only failure surface: a kind and the span
//! of the offending text. Once one is raised, generation of the whole type
//! stops and nothing is emitted.

use vstd::prelude::*;
use crate::syntax::Span;

verus! {

/// Everything the generator can reject.
#[derive(Clone, Copy, Debug, PartialEq, Eq, Structural)]
pub enum DiagnosticKind {
    /// The annotated type is not a tagged union.
    UnsupportedTopLevelShape,
    /// A variant declares named fields.
    UnsupportedNamedFields,
    /// A variant declares two or more unnamed fields.
    TooManyFields,
    /// A variant carries no `response(...)` annotation at all.
    MissingResponseAttribute,
    /// A `response(...)` annotation lacks the `status` key or has a
    /// malformed right-hand side.
    MissingStatusAttribute,
}

/// A build-time error bound to the offending source span.
#[derive(Clone, Copy, Debug, PartialEq, Eq, Structural)]
pub struct Diagnostic {
    pub kind: DiagnosticKind,
    pub span: Span,
}

/// The message that a diagnostic of the given kind carries.
pub open spec fn kind_message(kind: DiagnosticKind) -> Seq<char> {
    match kind {
        DiagnosticKind::UnsupportedTopLevelShape => "response conversion can only be derived for an enum"@,
        DiagnosticKind::UnsupportedNamedFields => "response conversion does not support named enum fields"@,
        DiagnosticKind::TooManyFields => "response conversion requires at most one unnamed field"@,
        DiagnosticKind::MissingResponseAttribute => "each variant requires a `response(...)` attribute"@,
        DiagnosticKind::MissingStatusAttribute => "missing expected `status` attribute"@,
    }
}

impl Diagnostic {
    /// Returns the message to print beside the offending span.
    pub fn message(&self) -> (m: String)
        ensures
            m@ == kind_message(self.kind),
    {
        match self.kind {
            DiagnosticKind::UnsupportedTopLevelShape => "response conversion can only be derived for an enum".to_owned(),
            DiagnosticKind::UnsupportedNamedFields => "response conversion does not support named enum fields".to_owned(),
            DiagnosticKind::TooManyFields => "response conversion requires at most one unnamed field".to_owned(),
            DiagnosticKind::MissingResponseAttribute => "each variant requires a `response(...)` attribute".to_owned(),
            DiagnosticKind::MissingStatusAttribute => "missing expected `status` attribute".to_owned(),
        }
    }
}

} // verus!
