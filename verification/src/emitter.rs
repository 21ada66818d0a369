//! The code emitter.
//!
//! For each validated variant it synthesizes one dispatch arm: the pattern
//! that destructures the variant, the declared status name, and whether the
//! payload is wrapped in the structured-encoding constructor. The whole
//! generation is single-pass and fail-fast: the top-level shape is checked
//! first, then each variant in declaration order, and the first offence
//! aborts with its diagnostic, so no partial dispatcher is ever produced.

use vstd::prelude::*;
use crate::diagnostics::{Diagnostic, DiagnosticKind};
use crate::parser::{has_encoding_marker, parse_variant_status, spec_has_marker, spec_variant_status};
use crate::syntax::{FieldList, Ident, TypeDefinition, TypeShape, Variant};
use crate::validator::{spec_variant_shape, validate_variant_shape, PatternKind};

verus! {

/// One arm of the emitted dispatcher: how to destructure the variant, the
/// status name it declares, and whether its payload is wrapped in the
/// structured-encoding constructor before the response conversion.
#[derive(Debug, PartialEq, Eq)]
pub struct DispatchArm {
    pub variant_name: String,
    pub pattern: PatternKind,
    pub wrap: bool,
    pub status: String,
}

/// The whole emitted dispatcher: one exhaustive case table over the type's
/// variants, in declaration order.
#[derive(Debug, PartialEq, Eq)]
pub struct Generated {
    pub target_name: String,
    pub arms: Vec<DispatchArm>,
}

/// Whether one variant passes both the attribute parser and the shape
/// validator.
pub open spec fn variant_ok(v: Variant) -> bool {
    &&& spec_variant_status(v) is Ok
    &&& spec_variant_shape(v) is Ok
}

/// The diagnostic that rejects one offending variant: annotations are
/// examined before the field list, as the control flow of generation does.
pub open spec fn variant_diag(v: Variant) -> Diagnostic
    recommends
        !variant_ok(v),
{
    if spec_variant_status(v) is Err {
        spec_variant_status(v)->Err_0
    } else {
        spec_variant_shape(v)->Err_0
    }
}

/// Whether a variant's payload carries the structured-encoding marker.
pub open spec fn spec_wrap(v: Variant) -> bool {
    v.fields matches FieldList::Unnamed(fs) && fs@.len() == 1 && spec_has_marker(fs@[0])
}

/// The dispatch arm emitted for one valid variant.
pub open spec fn spec_arm(v: Variant) -> DispatchArm
    recommends
        variant_ok(v),
{
    DispatchArm {
        variant_name: v.name.name,
        pattern: spec_variant_shape(v)->Ok_0,
        wrap: spec_wrap(v),
        status: spec_variant_status(v)->Ok_0.name,
    }
}

/// The arms emitted for a sequence of valid variants, in declaration order.
pub open spec fn spec_arms(vs: Seq<Variant>) -> Seq<DispatchArm> {
    vs.map_values(|v: Variant| spec_arm(v))
}

/// Whether a whole type definition is accepted: a tagged union whose every
/// variant passes the parser and the validator.
pub open spec fn input_ok(td: TypeDefinition) -> bool {
    &&& td.shape is Enum
    &&& forall|i: int|
        0 <= i < td.shape->Enum_0@.len() ==> variant_ok(#[trigger] td.shape->Enum_0@[i])
}

/// The diagnostic of the first offending variant, in declaration order.
pub open spec fn first_variant_diag(vs: Seq<Variant>) -> Diagnostic
    decreases vs.len(),
{
    if vs.len() == 0 {
        arbitrary()
    } else if !variant_ok(vs[0]) {
        variant_diag(vs[0])
    } else {
        first_variant_diag(vs.skip(1))
    }
}

/// The diagnostic that aborts generation of a rejected type definition: the
/// top-level shape is blamed before any variant is inspected.
pub open spec fn spec_first_diag(td: TypeDefinition) -> Diagnostic
    recommends
        !input_ok(td),
{
    if !(td.shape is Enum) {
        Diagnostic { kind: DiagnosticKind::UnsupportedTopLevelShape, span: td.name.span }
    } else {
        first_variant_diag(td.shape->Enum_0@)
    }
}

/// When every variant before position `k` is fine and the one at `k` is not,
/// the fail-fast sweep blames exactly the one at `k`.
proof fn lemma_first_variant_diag(vs: Seq<Variant>, k: int)
    requires
        0 <= k < vs.len(),
        forall|j: int| 0 <= j < k ==> variant_ok(#[trigger] vs[j]),
        !variant_ok(vs[k]),
    ensures
        first_variant_diag(vs) == variant_diag(vs[k]),
    decreases k,
{
    if k > 0 {
        assert forall|j: int| 0 <= j < k - 1 implies variant_ok(#[trigger] vs.skip(1)[j]) by {
            assert(vs.skip(1)[j] == vs[j + 1]);
        }
        assert(vs.skip(1)[k - 1] == vs[k]);
        lemma_first_variant_diag(vs.skip(1), k - 1);
    }
}

/// Emits the dispatch arm for one variant that both the parser and the
/// validator have accepted.
pub fn emit_arm(v: &Variant, pattern: PatternKind, status: &Ident) -> (arm: DispatchArm)
    requires
        spec_variant_shape(*v) == Ok::<PatternKind, Diagnostic>(pattern),
        spec_variant_status(*v) == Ok::<Ident, Diagnostic>(*status),
    ensures
        arm == spec_arm(*v),
{
    let wrap = match &v.fields {
        FieldList::Unnamed(fs) => if fs.len() == 1 {
            has_encoding_marker(&fs[0])
        } else {
            false
        },
        _ => false,
    };
    DispatchArm {
        variant_name: v.name.name.clone(),
        pattern,
        wrap,
        status: status.name.clone(),
    }
}

/// Runs the whole generation pass over one type definition.
///
/// On success the emitted dispatcher has exactly one arm per variant, in
/// declaration order. On failure nothing is emitted and the diagnostic is the
/// first offence in validation order: the top-level shape, then each variant
/// in declaration order, its annotations before its field list.
pub fn generate(td: &TypeDefinition) -> (r: Result<Generated, Diagnostic>)
    ensures
        match r {
            Ok(g) => {
                &&& input_ok(*td)
                &&& g.target_name == td.name.name
                &&& g.arms@ == spec_arms(td.shape->Enum_0@)
            },
            Err(d) => {
                &&& !input_ok(*td)
                &&& d == spec_first_diag(*td)
            },
        },
{
    let variants: &Vec<Variant> = match &td.shape {
        TypeShape::Enum(vs) => vs,
        _ => {
            return Err(
                Diagnostic { kind: DiagnosticKind::UnsupportedTopLevelShape, span: td.name.span },
            );
        },
    };
    let n = variants.len();
    let mut arms: Vec<DispatchArm> = Vec::new();
    let mut i: usize = 0;
    while i < n
        invariant
            i <= n,
            n == variants@.len(),
            td.shape == TypeShape::Enum(*variants),
            arms@.len() == i,
            forall|j: int| 0 <= j < i ==> variant_ok(#[trigger] variants@[j]),
            forall|j: int| 0 <= j < i ==> arms@[j] == spec_arm(#[trigger] variants@[j]),
        decreases n - i,
    {
        let v = &variants[i];
        let status = match parse_variant_status(v) {
            Ok(s) => s,
            Err(d) => {
                proof {
                    lemma_first_variant_diag(variants@, i as int);
                }
                return Err(d);
            },
        };
        let pattern = match validate_variant_shape(v) {
            Ok(p) => p,
            Err(d) => {
                proof {
                    lemma_first_variant_diag(variants@, i as int);
                }
                return Err(d);
            },
        };
        let arm = emit_arm(v, pattern, &status);
        arms.push(arm);
        i += 1;
    }
    proof {
        assert(arms@ =~= spec_arms(variants@));
    }
    Ok(Generated { target_name: td.name.name.clone(), arms })
}

/// Every accepted type definition generates successfully, and the emitted
/// dispatcher is total and exhaustive: exactly one arm per variant, emitted
/// in declaration order, each carrying its variant's name and declared
/// status.
pub proof fn lemma_generation_total(td: TypeDefinition)
    requires
        input_ok(td),
    ensures
        spec_arms(td.shape->Enum_0@).len() == td.shape->Enum_0@.len(),
        forall|i: int|
            0 <= i < td.shape->Enum_0@.len() ==> spec_arms(td.shape->Enum_0@)[i] == spec_arm(
                #[trigger] td.shape->Enum_0@[i],
            ),
        forall|i: int|
            0 <= i < td.shape->Enum_0@.len() ==> spec_arms(td.shape->Enum_0@)[i].variant_name
                == (#[trigger] td.shape->Enum_0@[i]).name.name,
        forall|i: int|
            0 <= i < td.shape->Enum_0@.len() ==> spec_arms(td.shape->Enum_0@)[i].status
                == spec_variant_status(#[trigger] td.shape->Enum_0@[i])->Ok_0.name,
{
}

} // verus!
