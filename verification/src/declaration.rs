//! A type declaration as the generator reads it: a name, a shape, and for each variant of an
//! enum its name, its fields and its attributes.

use vstd::prelude::*;
use crate::fields::{Fields, FieldsModel, Style};
use crate::model::{lemma_views_push, views};

verus! {

/// The value written after `key =` inside an attribute.
#[derive(Clone, Debug, PartialEq, Eq)]
pub enum MetaValue {
    /// An integer literal, by its value.
    Int(u64),
    /// A string literal, by the text it denotes.
    Str(String),
    /// Anything else: no value at all, a nested list, another kind of literal or expression,
    /// an integer literal beyond `u64`.
    Other,
}

/// The model of a [`MetaValue`].
pub enum MetaValueModel {
    Int(u64),
    Str(Seq<char>),
    Other,
}

impl View for MetaValue {
    type V = MetaValueModel;

    open spec fn view(&self) -> MetaValueModel {
        match self {
            MetaValue::Int(n) => MetaValueModel::Int(*n),
            MetaValue::Str(s) => MetaValueModel::Str(s@),
            MetaValue::Other => MetaValueModel::Other,
        }
    }
}

/// One item of an attribute's list: `key = value`.
#[derive(Clone, Debug, PartialEq, Eq)]
pub struct MetaItem {
    pub key: String,
    pub value: MetaValue,
}

/// The model of a [`MetaItem`].
pub struct MetaItemModel {
    pub key: Seq<char>,
    pub value: MetaValueModel,
}

impl View for MetaItem {
    type V = MetaItemModel;

    open spec fn view(&self) -> MetaItemModel {
        MetaItemModel { key: self.key@, value: self.value@ }
    }
}

impl MetaItem {
    /// `key = value` with an integer literal.
    pub fn integer(key: &str, value: u64) -> (item: MetaItem)
        ensures
            item@ == (MetaItemModel { key: key@, value: MetaValueModel::Int(value) }),
    {
        MetaItem { key: key.to_owned(), value: MetaValue::Int(value) }
    }

    /// `key = "value"` with a string literal.
    pub fn text(key: &str, value: &str) -> (item: MetaItem)
        ensures
            item@ == (MetaItemModel { key: key@, value: MetaValueModel::Str(value@) }),
    {
        MetaItem { key: key.to_owned(), value: MetaValue::Str(value.to_owned()) }
    }

    /// `key` with something that is neither an integer nor a string literal.
    pub fn other(key: &str) -> (item: MetaItem)
        ensures
            item@ == (MetaItemModel { key: key@, value: MetaValueModel::Other }),
    {
        MetaItem { key: key.to_owned(), value: MetaValue::Other }
    }
}

/// An attribute on a variant: `#[path(item, item, ...)]`.
#[derive(Clone, Debug, PartialEq, Eq)]
pub struct Attribute {
    pub path: String,
    pub items: Vec<MetaItem>,
}

/// The model of an [`Attribute`].
pub struct AttributeModel {
    pub path: Seq<char>,
    pub items: Seq<MetaItemModel>,
}

impl View for Attribute {
    type V = AttributeModel;

    open spec fn view(&self) -> AttributeModel {
        AttributeModel { path: self.path@, items: views(self.items@) }
    }
}

impl Attribute {
    /// The attribute `#[path(items)]`.
    pub fn new(path: &str, items: Vec<MetaItem>) -> (attribute: Attribute)
        ensures
            attribute@ == (AttributeModel { path: path@, items: views(items@) }),
    {
        Attribute { path: path.to_owned(), items }
    }
}

/// One variant of an enum, as declared.
#[derive(Clone, Debug, PartialEq, Eq)]
pub struct VariantDecl {
    pub ident: String,
    pub fields: Fields,
    pub attrs: Vec<Attribute>,
}

/// The model of a [`VariantDecl`].
pub struct VariantDeclModel {
    pub ident: Seq<char>,
    pub fields: FieldsModel,
    pub attrs: Seq<AttributeModel>,
}

impl View for VariantDecl {
    type V = VariantDeclModel;

    open spec fn view(&self) -> VariantDeclModel {
        VariantDeclModel { ident: self.ident@, fields: self.fields@, attrs: views(self.attrs@) }
    }
}

impl VariantDecl {
    /// A variant without fields and without attributes.
    pub fn unit(ident: &str) -> (variant: VariantDecl)
        ensures
            variant@ == (VariantDeclModel {
                ident: ident@,
                fields: FieldsModel { style: Style::Unit, fields: Seq::empty() },
                attrs: Seq::empty(),
            }),
    {
        let variant = VariantDecl {
            ident: ident.to_owned(),
            fields: Fields::unit(),
            attrs: Vec::new(),
        };
        assert(variant@.attrs =~= Seq::empty());
        variant
    }

    /// The same variant with one more attribute after those it has.
    pub fn with_attribute(self, attribute: Attribute) -> (variant: VariantDecl)
        ensures
            variant@ == (VariantDeclModel { attrs: self@.attrs.push(attribute@), ..self@ }),
    {
        let mut attrs = self.attrs;
        proof {
            lemma_views_push(attrs@, attribute);
        }
        attrs.push(attribute);
        VariantDecl { ident: self.ident, fields: self.fields, attrs }
    }

    /// The same variant with `fields` in place of those it has.
    pub fn with_fields(self, fields: Fields) -> (variant: VariantDecl)
        ensures
            variant@ == (VariantDeclModel { fields: fields@, ..self@ }),
    {
        VariantDecl { ident: self.ident, fields, attrs: self.attrs }
    }
}

/// What kind of type a declaration declares.
#[derive(Clone, Debug, PartialEq, Eq)]
pub enum Shape {
    Enum(Vec<VariantDecl>),
    Struct(Fields),
    Union(Fields),
}

/// The model of a [`Shape`].
pub enum ShapeModel {
    Enum(Seq<VariantDeclModel>),
    Struct(FieldsModel),
    Union(FieldsModel),
}

impl View for Shape {
    type V = ShapeModel;

    open spec fn view(&self) -> ShapeModel {
        match self {
            Shape::Enum(variants) => ShapeModel::Enum(views(variants@)),
            Shape::Struct(fields) => ShapeModel::Struct(fields@),
            Shape::Union(fields) => ShapeModel::Union(fields@),
        }
    }
}

/// A type declaration: its name and its shape.
#[derive(Clone, Debug, PartialEq, Eq)]
pub struct Declaration {
    pub ident: String,
    pub shape: Shape,
}

/// The model of a [`Declaration`].
pub struct DeclarationModel {
    pub ident: Seq<char>,
    pub shape: ShapeModel,
}

impl View for Declaration {
    type V = DeclarationModel;

    open spec fn view(&self) -> DeclarationModel {
        DeclarationModel { ident: self.ident@, shape: self.shape@ }
    }
}

impl Declaration {
    /// The declaration of an enum with these variants, in this order.
    pub fn enumeration(ident: &str, variants: Vec<VariantDecl>) -> (declaration: Declaration)
        ensures
            declaration@ == (DeclarationModel {
                ident: ident@,
                shape: ShapeModel::Enum(views(variants@)),
            }),
    {
        Declaration { ident: ident.to_owned(), shape: Shape::Enum(variants) }
    }

    /// The declaration of a struct with these fields.
    pub fn record(ident: &str, fields: Fields) -> (declaration: Declaration)
        ensures
            declaration@ == (DeclarationModel {
                ident: ident@,
                shape: ShapeModel::Struct(fields@),
            }),
    {
        Declaration { ident: ident.to_owned(), shape: Shape::Struct(fields) }
    }
}

} // verus!
