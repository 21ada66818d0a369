//! Derivation of a protocol-response dispatcher for tagged unions.
//!
//! Given the description of an enum whose variants carry zero or one unnamed
//! payload value, an optional per-field structured-encoding marker, and a
//! per-variant `response(status = ...)` annotation, this library validates the
//! shape of the type, parses the annotations, and emits one dispatch arm per
//! variant: the arm pairs the declared status with the (optionally wrapped)
//! payload. Generation is single-pass and fail-fast: the first offence aborts
//! the whole emission with a diagnostic bound to a source span, and no partial
//! dispatcher is ever produced.
//!
//! The emitted dispatcher is represented as an in-memory case table; turning
//! that table into source text, and obtaining the input description from a
//! host language's syntax tree, are presentation concerns left to the
//! application around this library.

pub mod api;
pub mod diagnostics;
pub mod dispatch;
pub mod emitter;
pub mod parser;
pub mod syntax;
pub mod validator;
