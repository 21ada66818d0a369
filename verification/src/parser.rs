//! The attribute parser.
//!
//! From the raw annotation tokens attached to a variant it extracts the
//! declared status name: the annotation must have the exact shape
//! `response(status = <identifier path>)`, and the status name is the last
//! segment of the identifier path. From the annotations attached to a field
//! it extracts the structured-encoding marker: a presence test for `json`.

use vstd::prelude::*;
use crate::diagnostics::{Diagnostic, DiagnosticKind};
use crate::syntax::{AttrToken, Attribute, Field, Ident, Span, Variant};

verus! {

/// The first annotation named `response` among `attrs`, if any.
pub open spec fn spec_find_response(attrs: Seq<Attribute>) -> Option<Attribute>
    decreases attrs.len(),
{
    if attrs.len() == 0 {
        None
    } else if attrs[0].path.name@ == "response"@ {
        Some(attrs[0])
    } else {
        spec_find_response(attrs.skip(1))
    }
}

/// Skipping a prefix with no `response` annotation does not change what is
/// found.
proof fn lemma_find_response_skip(attrs: Seq<Attribute>, i: int)
    requires
        0 <= i <= attrs.len(),
        forall|j: int| 0 <= j < i ==> (#[trigger] attrs[j]).path.name@ != "response"@,
    ensures
        spec_find_response(attrs) == spec_find_response(attrs.skip(i)),
    decreases i,
{
    if i > 0 {
        lemma_find_response_skip(attrs, i - 1);
        assert(attrs.skip(i - 1)[0] == attrs[i - 1]);
        assert(attrs.skip(i - 1).skip(1) =~= attrs.skip(i));
        assert(spec_find_response(attrs.skip(i - 1)) == spec_find_response(
            attrs.skip(i - 1).skip(1),
        ));
    } else {
        assert(attrs.skip(0) =~= attrs);
    }
}

/// Whether the tokens from position `i` on spell a well-formed tail of an
/// identifier path: a segment, then either the end or a separator and a
/// well-formed tail again.
pub open spec fn path_tail_ok(toks: Seq<AttrToken>, i: int) -> bool
    decreases toks.len() - i when 0 <= i
{
    if i >= toks.len() {
        false
    } else if !(toks[i] is Word) {
        false
    } else if i + 1 >= toks.len() {
        true
    } else if !(toks[i + 1] is PathSep) {
        false
    } else {
        path_tail_ok(toks, i + 2)
    }
}

/// A well-formed path tail ends in a segment, so the whole token list ends
/// in an identifier.
proof fn lemma_path_tail_last(toks: Seq<AttrToken>, i: int)
    requires
        0 <= i,
        path_tail_ok(toks, i),
    ensures
        i < toks.len(),
        toks.last() is Word,
    decreases toks.len() - i,
{
    if i + 1 < toks.len() {
        lemma_path_tail_last(toks, i + 2);
    }
}

/// The span of the token at which a malformed path tail goes wrong: a
/// missing segment is blamed on the token before the gap.
pub open spec fn path_diag_span(toks: Seq<AttrToken>, i: int) -> Span
    recommends
        1 <= i,
    decreases toks.len() - i when 0 <= i
{
    if i >= toks.len() {
        toks[i - 1].spec_span()
    } else if !(toks[i] is Word) {
        toks[i].spec_span()
    } else if i + 1 >= toks.len() {
        toks[i].spec_span()
    } else if !(toks[i + 1] is PathSep) {
        toks[i + 1].spec_span()
    } else {
        path_diag_span(toks, i + 2)
    }
}

/// Whether an annotation's raw tokens have the exact accepted shape
/// `status = <identifier path>`.
pub open spec fn args_ok(a: Attribute) -> bool {
    let toks = a.args@;
    &&& toks.len() >= 3
    &&& toks[0] matches AttrToken::Word(w) && w.name@ == "status"@
    &&& toks[1] is Assign
    &&& path_tail_ok(toks, 2)
}

/// The status name of a well-formed annotation: the last path segment.
pub open spec fn parsed_status(a: Attribute) -> Ident
    recommends
        args_ok(a),
{
    a.args@.last()->Word_0
}

/// The span blamed when an annotation's raw tokens are malformed.
pub open spec fn args_diag_span(a: Attribute) -> Span {
    let toks = a.args@;
    if toks.len() == 0 {
        a.path.span
    } else if !(toks[0] matches AttrToken::Word(w) && w.name@ == "status"@) {
        toks[0].spec_span()
    } else if toks.len() == 1 {
        toks[0].spec_span()
    } else if !(toks[1] is Assign) {
        toks[1].spec_span()
    } else {
        path_diag_span(toks, 2)
    }
}

/// What parsing an annotation's raw tokens yields: the declared status name,
/// or a diagnostic at the offending token.
pub open spec fn spec_parse_args(a: Attribute) -> Result<Ident, Diagnostic> {
    if args_ok(a) {
        Ok(parsed_status(a))
    } else {
        Err(Diagnostic { kind: DiagnosticKind::MissingStatusAttribute, span: args_diag_span(a) })
    }
}

/// What parsing a variant's annotations yields: the status name of its first
/// `response(...)` annotation, a diagnostic at the variant name when there is
/// none, or a diagnostic at the offending token when it is malformed.
pub open spec fn spec_variant_status(v: Variant) -> Result<Ident, Diagnostic> {
    match spec_find_response(v.attrs@) {
        None => Err(
            Diagnostic { kind: DiagnosticKind::MissingResponseAttribute, span: v.name.span },
        ),
        Some(a) => spec_parse_args(a),
    }
}

/// Whether a field carries the structured-encoding marker: any annotation
/// named `json`.
pub open spec fn spec_has_marker(f: Field) -> bool {
    exists|j: int|
        0 <= j < f.attrs@.len() && (#[trigger] f.attrs@[j]).path.name@ == "json"@
}

/// Returns the position of the first annotation named `response`, if any.
fn find_response_attribute(attrs: &Vec<Attribute>) -> (r: Option<usize>)
    ensures
        match r {
            Some(k) => k < attrs@.len() && spec_find_response(attrs@) == Some(attrs@[k as int]),
            None => spec_find_response(attrs@) is None,
        },
{
    let key: String = "response".to_owned();
    let n = attrs.len();
    let mut i: usize = 0;
    while i < n
        invariant
            i <= n,
            n == attrs@.len(),
            key@ == "response"@,
            forall|j: int| 0 <= j < i ==> (#[trigger] attrs@[j]).path.name@ != "response"@,
        decreases n - i,
    {
        if attrs[i].path.name == key {
            proof {
                lemma_find_response_skip(attrs@, i as int);
                assert(attrs@.skip(i as int)[0] == attrs@[i as int]);
            }
            return Some(i);
        }
        i += 1;
    }
    proof {
        lemma_find_response_skip(attrs@, n as int);
        assert(attrs@.skip(n as int).len() == 0);
    }
    None
}

/// Parses the raw tokens of a `response(...)` annotation and returns the
/// declared status name: the last segment of the identifier path on the
/// right-hand side of `status = ...`. Any other shape is diagnosed as a
/// missing `status` attribute at the offending token.
pub fn parse_response_args(attr: &Attribute) -> (r: Result<Ident, Diagnostic>)
    ensures
        r == spec_parse_args(*attr),
{
    let n = attr.args.len();
    if n == 0 {
        return Err(
            Diagnostic { kind: DiagnosticKind::MissingStatusAttribute, span: attr.path.span },
        );
    }
    let key: String = "status".to_owned();
    let first_ok = match &attr.args[0] {
        AttrToken::Word(w) => w.name == key,
        _ => false,
    };
    if !first_ok {
        return Err(
            Diagnostic { kind: DiagnosticKind::MissingStatusAttribute, span: attr.args[0].span() },
        );
    }
    if n == 1 {
        return Err(
            Diagnostic { kind: DiagnosticKind::MissingStatusAttribute, span: attr.args[0].span() },
        );
    }
    let second_ok = match &attr.args[1] {
        AttrToken::Assign(_) => true,
        _ => false,
    };
    if !second_ok {
        return Err(
            Diagnostic { kind: DiagnosticKind::MissingStatusAttribute, span: attr.args[1].span() },
        );
    }
    let mut i: usize = 2;
    loop
        invariant
            2 <= i <= n,
            n == attr.args@.len(),
            n >= 2,
            attr.args@[0] matches AttrToken::Word(w) && w.name@ == "status"@,
            attr.args@[1] is Assign,
            path_tail_ok(attr.args@, 2) == path_tail_ok(attr.args@, i as int),
            path_diag_span(attr.args@, 2) == path_diag_span(attr.args@, i as int),
        decreases n - i,
    {
        if i >= n {
            return Err(
                Diagnostic {
                    kind: DiagnosticKind::MissingStatusAttribute,
                    span: attr.args[i - 1].span(),
                },
            );
        }
        match &attr.args[i] {
            AttrToken::Word(w) => {
                if i + 1 == n {
                    proof {
                        assert(attr.args@.last() == attr.args@[i as int]);
                    }
                    return Ok(Ident { name: w.name.clone(), span: w.span });
                }
                let sep_ok = match &attr.args[i + 1] {
                    AttrToken::PathSep(_) => true,
                    _ => false,
                };
                if !sep_ok {
                    return Err(
                        Diagnostic {
                            kind: DiagnosticKind::MissingStatusAttribute,
                            span: attr.args[i + 1].span(),
                        },
                    );
                }
                i += 2;
            },
            _ => {
                return Err(
                    Diagnostic {
                        kind: DiagnosticKind::MissingStatusAttribute,
                        span: attr.args[i].span(),
                    },
                );
            },
        }
    }
}

/// Extracts the status name declared on a variant, or the diagnostic that
/// rejecting it raises.
pub fn parse_variant_status(v: &Variant) -> (r: Result<Ident, Diagnostic>)
    ensures
        r == spec_variant_status(*v),
{
    match find_response_attribute(&v.attrs) {
        None => Err(
            Diagnostic { kind: DiagnosticKind::MissingResponseAttribute, span: v.name.span },
        ),
        Some(k) => parse_response_args(&v.attrs[k]),
    }
}

/// Tests whether a field carries the structured-encoding marker `json`.
pub fn has_encoding_marker(f: &Field) -> (r: bool)
    ensures
        r == spec_has_marker(*f),
{
    let key: String = "json".to_owned();
    let n = f.attrs.len();
    let mut i: usize = 0;
    while i < n
        invariant
            i <= n,
            n == f.attrs@.len(),
            key@ == "json"@,
            forall|j: int| 0 <= j < i ==> (#[trigger] f.attrs@[j]).path.name@ != "json"@,
        decreases n - i,
    {
        if f.attrs[i].path.name == key {
            return true;
        }
        i += 1;
    }
    false
}

} // verus!
