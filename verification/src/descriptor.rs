//! What the generator keeps of a declaration: the enum's name and, for each variant in
//! declaration order, its name, its fields and what its attributes configure.

use vstd::prelude::*;
use crate::fields::{Fields, FieldsModel};
use crate::model::{optional_text, views};

verus! {

/// One variant: its name, its fields as declared, and what it configures. A status or a
/// message that is not configured is `None`; the defaults are applied when the accessors
/// are written.
#[derive(Clone, Debug, PartialEq, Eq)]
pub struct DetailErrorVariant {
    pub ident: String,
    pub fields: Fields,
    pub code: Option<u16>,
    pub message: Option<String>,
}

/// The model of a [`DetailErrorVariant`].
pub struct DetailErrorVariantModel {
    pub ident: Seq<char>,
    pub fields: FieldsModel,
    pub code: Option<u16>,
    pub message: Option<Seq<char>>,
}

impl View for DetailErrorVariant {
    type V = DetailErrorVariantModel;

    open spec fn view(&self) -> DetailErrorVariantModel {
        DetailErrorVariantModel {
            ident: self.ident@,
            fields: self.fields@,
            code: self.code,
            message: optional_text(self.message),
        }
    }
}

/// An enum: its name and its variants in declaration order.
#[derive(Clone, Debug, PartialEq, Eq)]
pub struct DetailErrorEnum {
    pub ident: String,
    pub variants: Vec<DetailErrorVariant>,
}

/// The model of a [`DetailErrorEnum`].
pub struct DetailErrorEnumModel {
    pub ident: Seq<char>,
    pub variants: Seq<DetailErrorVariantModel>,
}

impl View for DetailErrorEnum {
    type V = DetailErrorEnumModel;

    open spec fn view(&self) -> DetailErrorEnumModel {
        DetailErrorEnumModel { ident: self.ident@, variants: views(self.variants@) }
    }
}

} // verus!
