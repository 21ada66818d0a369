//! The input model: a structured description of an annotated tagged union.
//!
//! These types carry, as plain values, exactly what the generator reads from a
//! type definition: names, source spans, the raw tokens of each annotation,
//! and the shape of each variant's field list.

use vstd::prelude::*;

verus! {

/// A source location, used to tie a diagnostic to the offending text.
///
/// The two ends are opaque to the generator: it only carries them through,
/// so any encoding (byte offsets, packed line and column) will do.
#[derive(Clone, Copy, Debug, PartialEq, Eq, Structural)]
pub struct Span {
    pub lo: u32,
    pub hi: u32,
}

/// An identifier together with the place it was written.
#[derive(Debug)]
pub struct Ident {
    pub name: String,
    pub span: Span,
}

/// One raw token inside the parentheses of an annotation, such as the
/// `status`, `=`, `http`, `::`, `StatusCode`, `::`, `OK` of
/// `response(status = http::StatusCode::OK)`.
#[derive(Debug)]
pub enum AttrToken {
    /// An identifier token.
    Word(Ident),
    /// The `=` token.
    Assign(Span),
    /// The `::` path-separator token.
    PathSep(Span),
}

impl AttrToken {
    /// The span of this token.
    pub open spec fn spec_span(self) -> Span {
        match self {
            AttrToken::Word(id) => id.span,
            AttrToken::Assign(s) => s,
            AttrToken::PathSep(s) => s,
        }
    }

    /// Returns the span of this token.
    pub fn span(&self) -> (s: Span)
        ensures
            s == self.spec_span(),
    {
        match self {
            AttrToken::Word(id) => id.span,
            AttrToken::Assign(s) => *s,
            AttrToken::PathSep(s) => *s,
        }
    }
}

/// One annotation attached to a variant or a field: a name and the raw
/// tokens between its parentheses (empty for a bare marker such as `json`).
#[derive(Debug)]
pub struct Attribute {
    pub path: Ident,
    pub args: Vec<AttrToken>,
}

/// One field of a variant: the name of the payload type it carries, and the
/// annotations attached to it.
#[derive(Debug)]
pub struct Field {
    pub payload_type: String,
    pub attrs: Vec<Attribute>,
}

/// The shape of a variant's field list.
#[derive(Debug)]
pub enum FieldList {
    /// No field list at all, as in `NoFields`.
    Unit,
    /// Parenthesised unnamed fields, possibly zero of them, as in
    /// `ZeroFields()` or `Success(Movie)`.
    Unnamed(Vec<Field>),
    /// Braced named fields. Never supported by the generator.
    Named(Vec<Field>),
}

/// One variant of the tagged union: its name, the annotations attached to
/// it, and its field list.
#[derive(Debug)]
pub struct Variant {
    pub name: Ident,
    pub attrs: Vec<Attribute>,
    pub fields: FieldList,
}

/// The data shape of the annotated type. Only `Enum` is ever accepted.
#[derive(Debug)]
pub enum TypeShape {
    Enum(Vec<Variant>),
    Struct,
    Union,
}

/// The whole description handed to the generator: the type's name, its
/// generic parameter names, and its data shape.
///
/// The generic parameters are carried for completeness but take no part in
/// the emitted dispatcher, which names the type alone.
#[derive(Debug)]
pub struct TypeDefinition {
    pub name: Ident,
    pub generics: Vec<Ident>,
    pub shape: TypeShape,
}

} // verus!
