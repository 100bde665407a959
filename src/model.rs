//! The shape of a struct declaration, as the generators read it.
use vstd::prelude::*;

verus! {

/// What follows the identifier of one path segment.
pub enum PathArgs {
    /// No arguments: `Foo`.
    Plain,
    /// Generic arguments, as written, brackets included: `<u8, T>`.
    AngleBracketed(String),
    /// Function-style arguments, as written, parentheses included: `(u8) -> T`.
    Parenthesized(String),
}

/// One segment of a path: `Vec<u8>` in `std::vec::Vec<u8>`.
pub struct PathSegment {
    pub ident: String,
    pub args: PathArgs,
}

/// A path such as `::std::vec::Vec<u8>`.
pub struct Path {
    /// The path starts with `::`.
    pub leading_colon: bool,
    pub segments: Vec<PathSegment>,
}

/// A named type: its full source text, and the path it is written with.
pub struct TypePath {
    pub text: String,
    pub path: Path,
}

/// The declared type of a field, as far as the generators look into it.
pub enum FieldType {
    /// A named type such as `u32` or `Vec<T>`.
    Path(TypePath),
    /// A raw pointer, `*const T` or `*mut T`, to the given type.
    Ptr(Box<FieldType>),
    /// Any other type: a reference, a slice, a tuple, an array...
    Other,
}

/// An attribute `#[name(args)]`.
pub struct Attr {
    /// The attribute's path, when that path is a single identifier.
    pub name: Option<String>,
    /// The text inside the delimiters, when the arguments are one delimited group.
    pub args: Option<String>,
}

/// A field of a struct.
pub struct FieldDecl {
    /// The field's name; `None` for a field of a tuple struct.
    pub name: Option<String>,
    pub ty: FieldType,
    pub attrs: Vec<Attr>,
}

/// A type declaration handed to a generator.
pub struct StructDecl {
    pub name: String,
    pub attrs: Vec<Attr>,
    /// The fields, in declaration order; `None` when the declaration is an
    /// enum or a union rather than a struct.
    pub fields: Option<Vec<FieldDecl>>,
}

/// How a field is converted, decided from its declared type.
#[derive(PartialEq, Eq, Structural, Clone, Copy, Debug)]
pub enum Class {
    /// A pointer to a C character type: a C string.
    StrPtr,
    /// A pointer to another convertible type.
    OpaquePtr,
    /// A non-pointer convertible type.
    Value,
}

/// The conversion chosen for one field.
#[derive(PartialEq, Eq, Structural, Clone, Copy, Debug)]
pub struct FieldPlan {
    pub class: Class,
    /// The field carries the `nullable` marker.
    pub nullable: bool,
}

/// Why a declaration cannot be given a conversion.
#[derive(PartialEq, Eq, Structural, Clone, Copy, Debug)]
pub enum DeriveError {
    /// The declaration is an enum or a union.
    NotAStruct,
    /// No `target_type` attribute names the paired native type.
    MissingTargetType,
    /// More than one `target_type` attribute is given.
    DuplicateTargetType,
    /// The `target_type` attribute's argument is not a path.
    InvalidTargetType,
    /// A field has no name.
    UnnamedField,
    /// A field's type is none of the shapes that can be converted.
    UnsupportedFieldType,
}

/// The two generators.
#[derive(PartialEq, Eq, Structural, Clone, Copy, Debug)]
pub enum Generator {
    /// Writes `CReprOf`: native to C.
    CReprOf,
    /// Writes `AsRust`: C to native.
    AsRust,
}

/// The sentence that describes an error met by a generator.
pub open spec fn message_text(e: DeriveError, g: Generator) -> Seq<char> {
    match (e, g) {
        (DeriveError::NotAStruct, Generator::CReprOf) => "CReprOf can only be derived for structs"@,
        (DeriveError::NotAStruct, Generator::AsRust) => "AsRust can only be derived for structs"@,
        (DeriveError::MissingTargetType, Generator::CReprOf) => "Can't derive CReprOf without target_type helper attribute."@,
        (DeriveError::MissingTargetType, Generator::AsRust) => "Can't derive AsRust without target_type helper attribute."@,
        (DeriveError::DuplicateTargetType, _) => "only one target_type helper attribute may be given"@,
        (DeriveError::InvalidTargetType, _) => "the target_type attribute's argument is not a type path"@,
        (DeriveError::UnnamedField, _) => "field should have an ident"@,
        (DeriveError::UnsupportedFieldType, _) => "unsupported field type"@,
    }
}

impl DeriveError {
    /// A sentence that describes the error, as the generator `g` reports it.
    pub fn message(&self, g: Generator) -> (r: String)
        ensures
            r@ == message_text(*self, g),
    {
        let s = match (self, g) {
            (DeriveError::NotAStruct, Generator::CReprOf) => "CReprOf can only be derived for structs",
            (DeriveError::NotAStruct, Generator::AsRust) => "AsRust can only be derived for structs",
            (DeriveError::MissingTargetType, Generator::CReprOf) => "Can't derive CReprOf without target_type helper attribute.",
            (DeriveError::MissingTargetType, Generator::AsRust) => "Can't derive AsRust without target_type helper attribute.",
            (DeriveError::DuplicateTargetType, _) => "only one target_type helper attribute may be given",
            (DeriveError::InvalidTargetType, _) => "the target_type attribute's argument is not a type path",
            (DeriveError::UnnamedField, _) => "field should have an ident",
            (DeriveError::UnsupportedFieldType, _) => "unsupported field type",
        };
        String::from_str(s)
    }
}

} // verus!
