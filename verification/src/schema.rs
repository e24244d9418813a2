//! The schema of a record as it reaches the compiler: field names, declared
//! types and annotations, already parsed into trees of plain values.

use vstd::prelude::*;
use crate::number::Double;

verus! {

/// A literal inside an annotation.
#[derive(Debug, PartialEq)]
pub enum Lit {
    /// An integer literal: its text as written, and the double that it
    /// denotes in base ten, where it denotes one.
    Int { text: String, value: Option<Double> },
    /// A floating-point literal: the double that it denotes, where it denotes
    /// one.
    Float { value: Option<Double> },
    /// A string literal: the string it stands for.
    Str(String),
    /// Any other literal.
    Other,
}

/// One item of a parenthesized list: a nested annotation or a literal.
#[derive(Debug, PartialEq)]
pub enum NestedMeta {
    Meta(Meta),
    Lit(Lit),
}

/// The structured form of an annotation.
#[derive(Debug, PartialEq)]
pub enum Meta {
    /// A bare path, such as `email`: its segments.
    Path(Vec<String>),
    /// A path with a parenthesized list, such as `len(1, 5)`.
    List { path: Vec<String>, nested: Vec<NestedMeta> },
    /// A path with a value, such as `len = 5`.
    NameValue,
}

/// An annotation on a field.
#[derive(Debug, PartialEq)]
pub enum Attribute {
    /// One that has the structured form.
    Parsed(Meta),
    /// One that has not.
    Malformed,
}

/// One argument between the angle brackets of a path segment.
#[derive(Debug, PartialEq)]
pub enum GenericArg {
    /// A type.
    Type(TypeDesc),
    /// A lifetime, a constant, a binding or a constraint.
    Other,
}

/// What follows the name in a path segment.
#[derive(Debug, PartialEq)]
pub enum PathArgs {
    /// Nothing.
    Empty,
    /// Arguments in angle brackets, such as the `<T>` of `Option<T>`.
    AngleBracketed(Vec<GenericArg>),
    /// Arguments in parentheses, such as the `(A) -> B` of `Fn(A) -> B`.
    Parenthesized,
}

/// One segment of a type path: a name and its arguments.
#[derive(Debug, PartialEq)]
pub struct PathSegment {
    pub ident: String,
    pub args: PathArgs,
}

/// The declared type of a field.
#[derive(Debug, PartialEq)]
pub enum TypeDesc {
    /// A path, such as `std::option::Option<String>`: its segments.
    Path(Vec<PathSegment>),
    /// Any other type: a reference, a tuple, an array and so on.
    Other,
}

/// One field of a record: its name, its declared type and its annotations,
/// in the order written.
#[derive(Debug, PartialEq)]
pub struct FieldDef {
    pub name: String,
    pub ty: TypeDesc,
    pub attrs: Vec<Attribute>,
}

/// The shape of a record definition.
#[derive(Debug, PartialEq)]
pub enum RecordData {
    /// A struct with named fields, in declaration order.
    Named(Vec<FieldDef>),
    /// A tuple struct, a unit struct, an enum or a union.
    Other,
}

/// The definition of a record type.
#[derive(Debug, PartialEq)]
pub struct RecordDef {
    pub ident: String,
    pub data: RecordData,
}

} // verus!
