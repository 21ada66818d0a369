use movies::dispatch::{dispatch, status_code, Instance, PayloadValue};
use movies::emitter::{generate, Generated};
use movies::syntax::{
    AttrToken, Attribute, Field, FieldList, Ident, Span, TypeDefinition, TypeShape, Variant,
};

fn sp(n: u32) -> Span {
    Span { lo: n, hi: n }
}

fn ident(name: &str, at: u32) -> Ident {
    Ident { name: name.to_string(), span: sp(at) }
}

fn response_attr(status: &str) -> Attribute {
    Attribute {
        path: ident("response", 0),
        args: vec![
            AttrToken::Word(ident("status", 1)),
            AttrToken::Assign(sp(2)),
            AttrToken::Word(ident(status, 3)),
        ],
    }
}

fn json_attr() -> Attribute {
    Attribute { path: ident("json", 0), args: vec![] }
}

fn field(payload_type: &str, attrs: Vec<Attribute>) -> Field {
    Field { payload_type: payload_type.to_string(), attrs }
}

fn variant(name: &str, attrs: Vec<Attribute>, fields: FieldList) -> Variant {
    Variant { name: ident(name, 0), attrs, fields }
}

fn enum_def(name: &str, variants: Vec<Variant>) -> TypeDefinition {
    TypeDefinition {
        name: ident(name, 0),
        generics: vec![],
        shape: TypeShape::Enum(variants),
    }
}

/// The enum the dispatcher is generated for in these tests:
///
/// ```text
/// enum TestEnum {
///     #[response(status = OK)]
///     OneJsonField(#[json] Vec<String>),
///
///     #[response(status = BAD_REQUEST)]
///     OneField(&'static str),
///
///     #[response(status = NOT_FOUND)]
///     ZeroFields(),
///
///     #[response(status = INTERNAL_SERVER_ERROR)]
///     NoFields,
/// }
/// ```
fn test_enum() -> TypeDefinition {
    enum_def(
        "TestEnum",
        vec![
            variant(
                "OneJsonField",
                vec![response_attr("OK")],
                FieldList::Unnamed(vec![field("Vec<String>", vec![json_attr()])]),
            ),
            variant(
                "OneField",
                vec![response_attr("BAD_REQUEST")],
                FieldList::Unnamed(vec![field("&'static str", vec![])]),
            ),
            variant(
                "ZeroFields",
                vec![response_attr("NOT_FOUND")],
                FieldList::Unnamed(vec![]),
            ),
            variant(
                "NoFields",
                vec![response_attr("INTERNAL_SERVER_ERROR")],
                FieldList::Unit,
            ),
        ],
    )
}

fn generated() -> Generated {
    generate(&test_enum()).unwrap()
}

#[test]
fn one_json_field_into_response_works() {
    let g = generated();
    let payload = PayloadValue::TextList(vec!["hello".to_string(), "world".to_string()]);
    let response = dispatch(&g, Instance { tag: 0, payload: Some(payload) });

    assert_eq!(status_code(&response.status), Some(200));
}

#[test]
fn one_field_into_response_works() {
    let g = generated();
    let payload = PayloadValue::Text("world".to_string());
    let response = dispatch(&g, Instance { tag: 1, payload: Some(payload) });

    assert_eq!(status_code(&response.status), Some(400));
}

#[test]
fn zero_fields_into_response_works() {
    let g = generated();
    let response = dispatch(&g, Instance { tag: 2, payload: None });

    assert_eq!(status_code(&response.status), Some(404));
}

#[test]
fn no_fields_into_response_works() {
    let g = generated();
    let response = dispatch(&g, Instance { tag: 3, payload: None });

    assert_eq!(status_code(&response.status), Some(500));
}

#[test]
fn valid_definition_generates_one_arm_per_variant() {
    let g = generated();

    assert_eq!(g.target_name, "TestEnum");
    assert_eq!(g.arms.len(), 4);
    let names: Vec<&str> = g.arms.iter().map(|a| a.variant_name.as_str()).collect();
    assert_eq!(names, ["OneJsonField", "OneField", "ZeroFields", "NoFields"]);
    let statuses: Vec<&str> = g.arms.iter().map(|a| a.status.as_str()).collect();
    assert_eq!(
        statuses,
        ["OK", "BAD_REQUEST", "NOT_FOUND", "INTERNAL_SERVER_ERROR"]
    );
    assert!(g.arms[0].wrap);
    assert!(!g.arms[1].wrap);
    assert!(!g.arms[2].wrap);
    assert!(!g.arms[3].wrap);
}
