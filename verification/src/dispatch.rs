//! The runtime interpretation of an emitted dispatcher.
//!
//! An emitted case table is exercised by handing it an instance of the
//! dispatched type: the position of its variant and, where the variant binds
//! a payload, the payload value. The dispatcher pairs the arm's declared
//! status with the payload expression: wrapped in the structured-encoding
//! envelope where the field was marked, passed through raw otherwise, and an
//! empty body where the variant carries nothing.
//!
//! Status names reference a closed, externally defined status enumeration;
//! `status_code` resolves the names this service declares to their protocol
//! status codes, as an unresolvable name only surfaces when the emitted
//! dispatcher is compiled.

use vstd::prelude::*;
use crate::api::ApiErrorBody;
use crate::emitter::{spec_arm, spec_arms, spec_wrap, input_ok, DispatchArm, Generated};
use crate::parser::spec_variant_status;
use crate::syntax::TypeDefinition;
use crate::validator::PatternKind;

verus! {

/// A payload value carried by a variant of the dispatched type.
#[derive(Debug, PartialEq, Eq)]
pub enum PayloadValue {
    /// A single piece of text.
    Text(String),
    /// A list of pieces of text.
    TextList(Vec<String>),
    /// The body of an error response.
    ErrorBody(ApiErrorBody),
}

/// The body of a protocol response.
#[derive(Debug, PartialEq, Eq)]
pub enum Body {
    /// No body at all: the response is status-only.
    Empty,
    /// The payload passed through unwrapped.
    Raw(PayloadValue),
    /// The payload wrapped in the structured-encoding envelope.
    Structured(PayloadValue),
}

/// A protocol response: a symbolic status name and a body.
#[derive(Debug, PartialEq, Eq)]
pub struct Response {
    pub status: String,
    pub body: Body,
}

/// A constructed instance of the dispatched type: the position of its
/// variant in declaration order, and its payload value if its variant binds
/// one.
#[derive(Debug, PartialEq, Eq)]
pub struct Instance {
    pub tag: usize,
    pub payload: Option<PayloadValue>,
}

/// Whether an instance belongs to the type a dispatcher was emitted for: its
/// tag names an arm, and it carries a payload exactly where that arm binds
/// one.
pub open spec fn instance_fits(inst: Instance, g: Generated) -> bool {
    &&& inst.tag < g.arms@.len()
    &&& (inst.payload is Some) == (g.arms@[inst.tag as int].pattern is Binds)
}

/// The body an arm produces for a payload: wrapped where the field was
/// marked, raw otherwise, empty where the variant binds nothing.
pub open spec fn spec_body(arm: DispatchArm, payload: Option<PayloadValue>) -> Body
    recommends
        (payload is Some) == (arm.pattern is Binds),
{
    if arm.pattern is Binds {
        if arm.wrap {
            Body::Structured(payload->Some_0)
        } else {
            Body::Raw(payload->Some_0)
        }
    } else {
        Body::Empty
    }
}

/// The response an arm produces: its declared status paired with the body.
pub open spec fn spec_response(arm: DispatchArm, payload: Option<PayloadValue>) -> Response {
    Response { status: arm.status, body: spec_body(arm, payload) }
}

/// Runs an emitted dispatcher on one instance of the dispatched type, as the
/// generated method would: the instance's variant selects its arm, and the
/// response pairs the arm's declared status with the payload expression.
pub fn dispatch(g: &Generated, inst: Instance) -> (r: Response)
    requires
        instance_fits(inst, *g),
    ensures
        r == spec_response(g.arms@[inst.tag as int], inst.payload),
{
    let arm = &g.arms[inst.tag];
    let body = match inst.payload {
        Some(p) => if arm.wrap {
            Body::Structured(p)
        } else {
            Body::Raw(p)
        },
        None => Body::Empty,
    };
    Response { status: arm.status.clone(), body }
}

/// The protocol status code of a status name, for the names of the closed
/// status enumeration that this service declares.
pub open spec fn spec_status_code(name: Seq<char>) -> Option<u16> {
    if name == "OK"@ {
        Some(200u16)
    } else if name == "NO_CONTENT"@ {
        Some(204u16)
    } else if name == "BAD_REQUEST"@ {
        Some(400u16)
    } else if name == "NOT_FOUND"@ {
        Some(404u16)
    } else if name == "INTERNAL_SERVER_ERROR"@ {
        Some(500u16)
    } else {
        None
    }
}

/// Resolves a status name to its protocol status code, or nothing for a name
/// outside the closed status enumeration.
pub fn status_code(name: &String) -> (r: Option<u16>)
    ensures
        r == spec_status_code(name@),
{
    let ok: String = "OK".to_owned();
    if *name == ok {
        return Some(200);
    }
    let no_content: String = "NO_CONTENT".to_owned();
    if *name == no_content {
        return Some(204);
    }
    let bad_request: String = "BAD_REQUEST".to_owned();
    if *name == bad_request {
        return Some(400);
    }
    let not_found: String = "NOT_FOUND".to_owned();
    if *name == not_found {
        return Some(404);
    }
    let internal: String = "INTERNAL_SERVER_ERROR".to_owned();
    if *name == internal {
        return Some(500);
    }
    None
}

/// On an accepted type definition the emitted dispatcher handles every
/// constructed instance: the instance's variant has its own arm, and the
/// response carries that variant's declared status, with the payload wrapped
/// exactly where the field was marked and an empty body exactly where the
/// variant binds nothing.
pub proof fn lemma_dispatch_covers(td: TypeDefinition, i: int, payload: Option<PayloadValue>)
    requires
        input_ok(td),
        0 <= i < td.shape->Enum_0@.len(),
        (payload is Some) == (spec_arm(td.shape->Enum_0@[i]).pattern is Binds),
    ensures
        spec_response(spec_arms(td.shape->Enum_0@)[i], payload).status == spec_variant_status(
            td.shape->Enum_0@[i],
        )->Ok_0.name,
        payload matches Some(p) ==> spec_response(spec_arms(td.shape->Enum_0@)[i], payload).body
            == (if spec_wrap(td.shape->Enum_0@[i]) {
                Body::Structured(p)
            } else {
                Body::Raw(p)
            }),
        payload is None ==> spec_response(spec_arms(td.shape->Enum_0@)[i], payload).body
            == Body::Empty,
{
}

} // verus!
