//! The ways in which a declaration is refused.

use vstd::prelude::*;
use vstd::string::StringExecFns;

verus! {

/// The declaration is not an enum.
#[derive(Clone, Debug, PartialEq, Eq)]
pub struct ShapeError {
    /// The name of the declared type.
    pub ident: String,
}

/// The model of a [`ShapeError`].
pub struct ShapeErrorModel {
    pub ident: Seq<char>,
}

impl View for ShapeError {
    type V = ShapeErrorModel;

    open spec fn view(&self) -> ShapeErrorModel {
        ShapeErrorModel { ident: self.ident@ }
    }
}

/// What is wrong with an item of a `detail` attribute.
#[derive(Clone, Copy, Debug, PartialEq, Eq, Structural)]
pub enum SchemaErrorKind {
    /// The key is neither `code` nor `message`.
    UnknownKey,
    /// The key was given before on the same variant.
    DuplicateKey,
    /// The value is not of the key's type: `code` takes an integer literal that fits in 16
    /// bits, `message` a string literal.
    InvalidValue,
}

/// An item of a `detail` attribute, found by its key, that the schema refuses.
#[derive(Clone, Debug, PartialEq, Eq)]
pub struct Fault {
    pub key: String,
    pub kind: SchemaErrorKind,
}

/// The model of a [`Fault`].
pub struct FaultModel {
    pub key: Seq<char>,
    pub kind: SchemaErrorKind,
}

impl View for Fault {
    type V = FaultModel;

    open spec fn view(&self) -> FaultModel {
        FaultModel { key: self.key@, kind: self.kind }
    }
}

/// A variant carries a `detail` attribute that the schema refuses.
#[derive(Clone, Debug, PartialEq, Eq)]
pub struct SchemaError {
    /// The name of the variant.
    pub variant: String,
    /// The key of the first item that is refused.
    pub key: String,
    pub kind: SchemaErrorKind,
}

/// The model of a [`SchemaError`].
pub struct SchemaErrorModel {
    pub variant: Seq<char>,
    pub key: Seq<char>,
    pub kind: SchemaErrorKind,
}

impl View for SchemaError {
    type V = SchemaErrorModel;

    open spec fn view(&self) -> SchemaErrorModel {
        SchemaErrorModel { variant: self.variant@, key: self.key@, kind: self.kind }
    }
}

/// Why no accessors were written.
#[derive(Clone, Debug, PartialEq, Eq)]
pub enum GenerateError {
    Shape(ShapeError),
    Schema(SchemaError),
}

/// The model of a [`GenerateError`].
pub enum GenerateErrorModel {
    Shape(ShapeErrorModel),
    Schema(SchemaErrorModel),
}

impl View for GenerateError {
    type V = GenerateErrorModel;

    open spec fn view(&self) -> GenerateErrorModel {
        match self {
            GenerateError::Shape(error) => GenerateErrorModel::Shape(error@),
            GenerateError::Schema(error) => GenerateErrorModel::Schema(error@),
        }
    }
}

/// What is wrong with a refused item, in words.
pub open spec fn kind_text(kind: SchemaErrorKind) -> Seq<char> {
    match kind {
        SchemaErrorKind::UnknownKey => "unknown key"@,
        SchemaErrorKind::DuplicateKey => "duplicate key"@,
        SchemaErrorKind::InvalidValue => "invalid value for key"@,
    }
}

/// The message that tells the author of a declaration why it is refused. It names the
/// declaration that is not an enum, or the variant and the key of the refused item.
pub open spec fn diagnostic(error: GenerateErrorModel) -> Seq<char> {
    match error {
        GenerateErrorModel::Shape(shape) => "DetailError can only be derived for an enum, and `"@
            + shape.ident + "` is not one"@,
        GenerateErrorModel::Schema(schema) => kind_text(schema.kind) + " `"@ + schema.key
            + "` in a `detail` attribute of variant `"@ + schema.variant + "`"@,
    }
}

impl SchemaErrorKind {
    /// What is wrong with a refused item, in words.
    pub fn text(&self) -> (text: &'static str)
        ensures
            text@ == kind_text(*self),
    {
        match self {
            SchemaErrorKind::UnknownKey => "unknown key",
            SchemaErrorKind::DuplicateKey => "duplicate key",
            SchemaErrorKind::InvalidValue => "invalid value for key",
        }
    }
}

impl GenerateError {
    /// The message that tells the author of a declaration why it is refused.
    pub fn diagnostic(&self) -> (text: String)
        ensures
            text@ == diagnostic(self@),
    {
        let mut out = String::new();
        match self {
            GenerateError::Shape(shape) => {
                out.append("DetailError can only be derived for an enum, and `");
                out.append(shape.ident.as_str());
                out.append("` is not one");
            },
            GenerateError::Schema(schema) => {
                out.append(schema.kind.text());
                out.append(" `");
                out.append(schema.key.as_str());
                out.append("` in a `detail` attribute of variant `");
                out.append(schema.variant.as_str());
                out.append("`");
            },
        }
        assert(out@ =~= diagnostic(self@));
        out
    }
}

} // verus!
