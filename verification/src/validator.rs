//! The shape validator.
//!
//! Classifies a variant's field list by payload arity: no payload at all, a
//! parenthesised empty list, or exactly one unnamed payload value. Named
//! fields and two or more unnamed fields are rejected with a diagnostic that
//! spans the variant name.

use vstd::prelude::*;
use crate::diagnostics::{Diagnostic, DiagnosticKind};
use crate::syntax::{FieldList, Variant};

verus! {

/// How the dispatch arm for a variant destructures it.
#[derive(Clone, Copy, Debug, PartialEq, Eq, Structural)]
pub enum PatternKind {
    /// The bare variant name, for a variant with no field list.
    Plain,
    /// The variant name with empty parentheses.
    EmptyParens,
    /// The variant name binding its single payload value.
    Binds,
}

/// The arity classification of a field list: the destructuring pattern it
/// calls for, or the kind of diagnostic that rejects it.
pub open spec fn spec_classify(fields: FieldList) -> Result<PatternKind, DiagnosticKind> {
    match fields {
        FieldList::Unit => Ok(PatternKind::Plain),
        FieldList::Unnamed(fs) => if fs@.len() == 0 {
            Ok(PatternKind::EmptyParens)
        } else if fs@.len() == 1 {
            Ok(PatternKind::Binds)
        } else {
            Err(DiagnosticKind::TooManyFields)
        },
        FieldList::Named(_) => Err(DiagnosticKind::UnsupportedNamedFields),
    }
}

/// The shape verdict on a whole variant: its classification, with a rejection
/// turned into a diagnostic spanning the variant name.
pub open spec fn spec_variant_shape(v: Variant) -> Result<PatternKind, Diagnostic> {
    match spec_classify(v.fields) {
        Ok(p) => Ok(p),
        Err(kind) => Err(Diagnostic { kind, span: v.name.span }),
    }
}

/// Classifies a variant's field list, rejecting named fields and more than
/// one unnamed field with a diagnostic at the variant name.
pub fn validate_variant_shape(v: &Variant) -> (r: Result<PatternKind, Diagnostic>)
    ensures
        r == spec_variant_shape(*v),
{
    match &v.fields {
        FieldList::Unit => Ok(PatternKind::Plain),
        FieldList::Unnamed(fs) => {
            if fs.len() == 0 {
                Ok(PatternKind::EmptyParens)
            } else if fs.len() == 1 {
                Ok(PatternKind::Binds)
            } else {
                Err(Diagnostic { kind: DiagnosticKind::TooManyFields, span: v.name.span })
            }
        },
        FieldList::Named(_) => Err(
            Diagnostic { kind: DiagnosticKind::UnsupportedNamedFields, span: v.name.span },
        ),
    }
}

} // verus!
